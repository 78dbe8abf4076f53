use ort::download::{ModelUrl, ObjectDetectionImageSegmentation};

#[test]
fn model_urls_point_at_model_files() {
    assert_eq!(
        ObjectDetectionImageSegmentation::TinyYoloV2.model_url(),
        "https://github.com/onnx/models/raw/5faef4c33eba0395177850e1e31c4a6a9e634c82/vision/object_detection_segmentation/tiny-yolov2/model/tinyyolov2-8.onnx"
    );
    assert_eq!(
        ObjectDetectionImageSegmentation::Duc.model_url(),
        "https://github.com/onnx/models/raw/5faef4c33eba0395177850e1e31c4a6a9e634c82/vision/object_detection_segmentation/duc/model/ResNet101-DUC-7.onnx"
    );
    assert!(ObjectDetectionImageSegmentation::YoloV4.model_url().ends_with("/yolov4/model/yolov4.onnx"));
}
