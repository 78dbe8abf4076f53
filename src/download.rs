//! Catalog of pre-trained models and where to download them.

use vstd::prelude::*;

verus! {

/// A model that can be downloaded.
pub trait ModelUrl {
    /// The address of the model file, as characters.
    spec fn model_url_spec(&self) -> Seq<char>;

    /// The address the model file is downloaded from.
    fn model_url(&self) -> (r: &'static str)
        ensures
            r@ == self.model_url_spec(),
    ;
}

/// Object detection and image segmentation models.
///
/// Object detection models detect the presence of multiple objects in an image
/// and segment out the areas where they are found. Semantic segmentation models
/// label each pixel of an image with one of a set of categories.
#[derive(Debug, Clone)]
pub enum ObjectDetectionImageSegmentation {
    /// A real-time CNN for object detection that detects 20 different classes; a smaller version of
    /// the full YOLOv2 network.
    TinyYoloV2,
    /// Single Stage Detector: a real-time CNN for object detection that detects 80 different classes.
    Ssd,
    /// A MobileNet variant in the Single Shot Detector framework; detects 80 object classes and
    /// locates up to 10 objects in an image.
    SSDMobileNetV1,
    /// Connects a region proposal network with a CNN into one network for object detection over 80
    /// classes.
    FasterRcnn,
    /// A real-time network for object instance segmentation over 80 classes, extending Faster R-CNN
    /// with label, bounding box and mask branches.
    MaskRcnn,
    /// A real-time dense detector for object detection that addresses class imbalance through Focal
    /// Loss.
    RetinaNet,
    /// A CNN for real-time object detection over more than 9000 categories, with a single network
    /// evaluation.
    YoloV2,
    /// YOLOv2 trained on the COCO dataset, with 80 classes.
    YoloV2Coco,
    /// A deep CNN for real-time object detection over 80 classes; as accurate as SSD and faster.
    YoloV3,
    /// A smaller version of YOLOv3.
    TinyYoloV3,
    /// Optimises the speed and accuracy of object detection over YOLOv3.
    YoloV4,
    /// A deep CNN for pixel-wise semantic segmentation, trained on the cityscapes dataset.
    Duc,
}

impl ObjectDetectionImageSegmentation {
    /// The address of each model's file.
    pub open spec fn url(&self) -> Seq<char> {
        match self {
            ObjectDetectionImageSegmentation::TinyYoloV2 => "https://github.com/onnx/models/raw/5faef4c33eba0395177850e1e31c4a6a9e634c82/vision/object_detection_segmentation/tiny-yolov2/model/tinyyolov2-8.onnx"@,
            ObjectDetectionImageSegmentation::Ssd => "https://github.com/onnx/models/raw/5faef4c33eba0395177850e1e31c4a6a9e634c82/vision/object_detection_segmentation/ssd/model/ssd-10.onnx"@,
            ObjectDetectionImageSegmentation::SSDMobileNetV1 => "https://github.com/onnx/models/raw/5faef4c33eba0395177850e1e31c4a6a9e634c82/vision/object_detection_segmentation/ssd-mobilenetv1/model/ssd_mobilenet_v1_10.onnx"@,
            ObjectDetectionImageSegmentation::FasterRcnn => "https://github.com/onnx/models/raw/5faef4c33eba0395177850e1e31c4a6a9e634c82/vision/object_detection_segmentation/faster-rcnn/model/FasterRCNN-10.onnx"@,
            ObjectDetectionImageSegmentation::MaskRcnn => "https://github.com/onnx/models/raw/5faef4c33eba0395177850e1e31c4a6a9e634c82/vision/object_detection_segmentation/mask-rcnn/model/MaskRCNN-10.onnx"@,
            ObjectDetectionImageSegmentation::RetinaNet => "https://github.com/onnx/models/raw/5faef4c33eba0395177850e1e31c4a6a9e634c82/vision/object_detection_segmentation/retinanet/model/retinanet-9.onnx"@,
            ObjectDetectionImageSegmentation::YoloV2 => "https://github.com/onnx/models/raw/5faef4c33eba0395177850e1e31c4a6a9e634c82/vision/object_detection_segmentation/yolov2/model/yolov2-voc-8.onnx"@,
            ObjectDetectionImageSegmentation::YoloV2Coco => "https://github.com/onnx/models/raw/5faef4c33eba0395177850e1e31c4a6a9e634c82/vision/object_detection_segmentation/yolov2-coco/model/yolov2-coco-9.onnx"@,
            ObjectDetectionImageSegmentation::YoloV3 => "https://github.com/onnx/models/raw/5faef4c33eba0395177850e1e31c4a6a9e634c82/vision/object_detection_segmentation/yolov3/model/yolov3-10.onnx"@,
            ObjectDetectionImageSegmentation::TinyYoloV3 => "https://github.com/onnx/models/raw/5faef4c33eba0395177850e1e31c4a6a9e634c82/vision/object_detection_segmentation/tiny-yolov3/model/tiny-yolov3-11.onnx"@,
            ObjectDetectionImageSegmentation::YoloV4 => "https://github.com/onnx/models/raw/5faef4c33eba0395177850e1e31c4a6a9e634c82/vision/object_detection_segmentation/yolov4/model/yolov4.onnx"@,
            ObjectDetectionImageSegmentation::Duc => "https://github.com/onnx/models/raw/5faef4c33eba0395177850e1e31c4a6a9e634c82/vision/object_detection_segmentation/duc/model/ResNet101-DUC-7.onnx"@,
        }
    }
}

impl ModelUrl for ObjectDetectionImageSegmentation {
    open spec fn model_url_spec(&self) -> Seq<char> {
        self.url()
    }

    fn model_url(&self) -> (r: &'static str) {
        match self {
            ObjectDetectionImageSegmentation::TinyYoloV2 => {
                "https://github.com/onnx/models/raw/5faef4c33eba0395177850e1e31c4a6a9e634c82/vision/object_detection_segmentation/tiny-yolov2/model/tinyyolov2-8.onnx"
            },
            ObjectDetectionImageSegmentation::Ssd => {
                "https://github.com/onnx/models/raw/5faef4c33eba0395177850e1e31c4a6a9e634c82/vision/object_detection_segmentation/ssd/model/ssd-10.onnx"
            },
            ObjectDetectionImageSegmentation::SSDMobileNetV1 => {
                "https://github.com/onnx/models/raw/5faef4c33eba0395177850e1e31c4a6a9e634c82/vision/object_detection_segmentation/ssd-mobilenetv1/model/ssd_mobilenet_v1_10.onnx"
            },
            ObjectDetectionImageSegmentation::FasterRcnn => {
                "https://github.com/onnx/models/raw/5faef4c33eba0395177850e1e31c4a6a9e634c82/vision/object_detection_segmentation/faster-rcnn/model/FasterRCNN-10.onnx"
            },
            ObjectDetectionImageSegmentation::MaskRcnn => {
                "https://github.com/onnx/models/raw/5faef4c33eba0395177850e1e31c4a6a9e634c82/vision/object_detection_segmentation/mask-rcnn/model/MaskRCNN-10.onnx"
            },
            ObjectDetectionImageSegmentation::RetinaNet => {
                "https://github.com/onnx/models/raw/5faef4c33eba0395177850e1e31c4a6a9e634c82/vision/object_detection_segmentation/retinanet/model/retinanet-9.onnx"
            },
            ObjectDetectionImageSegmentation::YoloV2 => {
                "https://github.com/onnx/models/raw/5faef4c33eba0395177850e1e31c4a6a9e634c82/vision/object_detection_segmentation/yolov2/model/yolov2-voc-8.onnx"
            },
            ObjectDetectionImageSegmentation::YoloV2Coco => {
                "https://github.com/onnx/models/raw/5faef4c33eba0395177850e1e31c4a6a9e634c82/vision/object_detection_segmentation/yolov2-coco/model/yolov2-coco-9.onnx"
            },
            ObjectDetectionImageSegmentation::YoloV3 => {
                "https://github.com/onnx/models/raw/5faef4c33eba0395177850e1e31c4a6a9e634c82/vision/object_detection_segmentation/yolov3/model/yolov3-10.onnx"
            },
            ObjectDetectionImageSegmentation::TinyYoloV3 => {
                "https://github.com/onnx/models/raw/5faef4c33eba0395177850e1e31c4a6a9e634c82/vision/object_detection_segmentation/tiny-yolov3/model/tiny-yolov3-11.onnx"
            },
            ObjectDetectionImageSegmentation::YoloV4 => {
                "https://github.com/onnx/models/raw/5faef4c33eba0395177850e1e31c4a6a9e634c82/vision/object_detection_segmentation/yolov4/model/yolov4.onnx"
            },
            ObjectDetectionImageSegmentation::Duc => {
                "https://github.com/onnx/models/raw/5faef4c33eba0395177850e1e31c4a6a9e634c82/vision/object_detection_segmentation/duc/model/ResNet101-DUC-7.onnx"
            },
        }
    }
}

} // verus!
