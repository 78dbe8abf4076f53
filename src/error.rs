//! The error taxonomy of the native boundary and of model downloads.

use vstd::prelude::*;
use ureq::Error as UreqError;

verus! {

/// `std::string::FromUtf8Error` is carried through unchanged; nothing reads inside it.
#[verifier::external_type_specification]
#[verifier::external_body]
pub struct ExFromUtf8Error(std::string::FromUtf8Error);

/// `std::io::Error` is carried through unchanged; nothing reads inside it.
#[verifier::external_type_specification]
#[verifier::external_body]
pub struct ExIoError(std::io::Error);

/// `ureq::Error` is carried through unchanged; nothing reads inside it.
#[verifier::external_type_specification]
#[verifier::external_body]
pub struct ExUreqError(UreqError);

/// `widestring::error::ContainsNul` is carried through unchanged; nothing reads inside it.
#[verifier::external_type_specification]
#[verifier::external_body]
#[verifier::reject_recursive_types(C)]
pub struct ExContainsNul<C>(widestring::error::ContainsNul<C>);

/// The element type of a tensor.
#[derive(PartialEq, Eq, Structural, Clone, Copy, Debug)]
pub enum TensorElementDataType {
    Float32,
    Uint8,
    Int8,
    Uint16,
    Int16,
    Int32,
    Int64,
    String,
    Float64,
    Float16,
    Bfloat16,
    Uint32,
    Uint64,
    Bool,
}

/// A string that could not be handed to the native layer because it holds a
/// nul byte.
#[derive(Debug)]
pub struct InteriorNul {
    /// Index of the first nul byte.
    pub position: usize,
    /// The bytes of the rejected string.
    pub bytes: Vec<u8>,
}

/// Every failure at the native boundary and during data validation.
#[non_exhaustive]
#[derive(Debug)]
pub enum Error {
    /// Stands for a conversion that cannot fail.
    Infallible,
    /// Converting a native C string to a Rust `String` failed.
    FfiStringConversion(ErrorInternal),
    /// Creating the runtime environment failed.
    CreateEnvironment(ErrorInternal),
    /// Creating session options failed.
    CreateSessionOptions(ErrorInternal),
    /// Creating a session failed.
    CreateSession(ErrorInternal),
    /// Creating an IO binding failed.
    CreateIoBinding(ErrorInternal),
    /// Counting a session's inputs or outputs failed.
    GetInOutCount(ErrorInternal),
    /// Getting an input name failed.
    GetInputName(ErrorInternal),
    /// Getting type information failed.
    GetTypeInfo(ErrorInternal),
    /// Getting the value type from type information failed.
    GetOnnxTypeFromTypeInfo(ErrorInternal),
    /// Casting type information to tensor information failed.
    CastTypeInfoToTensorInfo(ErrorInternal),
    /// Casting type information to sequence type information failed.
    CastTypeInfoToSequenceTypeInfo(ErrorInternal),
    /// Casting type information to map type information failed.
    CastTypeInfoToMapTypeInfo(ErrorInternal),
    /// Getting a map's key type failed.
    GetMapKeyType(ErrorInternal),
    /// Getting a map's value type failed.
    GetMapValueType(ErrorInternal),
    /// Getting a sequence's element type failed.
    GetSequenceElementType(ErrorInternal),
    /// Getting a tensor's element type failed.
    GetTensorElementType(ErrorInternal),
    /// Getting the number of dimensions failed.
    GetDimensionsCount(ErrorInternal),
    /// Getting the dimensions failed.
    GetDimensions(ErrorInternal),
    /// Getting the length of a string tensor failed.
    GetStringTensorDataLength(ErrorInternal),
    /// Getting a tensor's element count failed.
    GetTensorShapeElementCount(ErrorInternal),
    /// Creating a tensor failed.
    CreateTensor(ErrorInternal),
    /// Creating a tensor over given data failed.
    CreateTensorWithData(ErrorInternal),
    /// Filling a string tensor failed.
    FillStringTensor(ErrorInternal),
    /// Checking whether a value is a properly initialised tensor failed.
    FailedTensorCheck(ErrorInternal),
    /// Getting a tensor's type and shape failed.
    GetTensorTypeAndShape(ErrorInternal),
    /// Running inference failed.
    SessionRun(ErrorInternal),
    /// Running inference through an IO binding failed.
    SessionRunWithIoBinding(ErrorInternal),
    /// Getting a tensor's data failed.
    GetTensorMutableData(ErrorInternal),
    /// Getting a string tensor's content failed.
    GetStringTensorContent(ErrorInternal),
    /// Data was not UTF-8.
    StringFromUtf8Error(std::string::FromUtf8Error),
    /// Downloading a model failed.
    DownloadError(FetchModelError),
    /// The element type of the input does not match the model's.
    NonMatchingDataTypes { input: TensorElementDataType, model: TensorElementDataType },
    /// The dimensions of the input do not match the model's.
    NonMatchingDimensions(NonMatchingDimensionsError),
    /// A file does not exist.
    FileDoesNotExist {
        /// The path that does not exist.
        filename: String,
    },
    /// A path cannot be represented as UTF-8.
    NonUtf8Path {
        /// The path, as far as it could be read.
        path: String,
    },
    /// A string handed to the native layer holds a nul byte.
    FfiStringNull(InteriorNul),
    /// A wide string handed to the native layer holds a nul code unit.
    WideFfiStringNull(widestring::error::ContainsNul<u16>),
    /// A native pointer should have been null; carries the pointer's name.
    PointerShouldBeNull(String),
    /// A native pointer should not have been null; carries the pointer's name.
    PointerShouldNotBeNull(String),
    /// The runtime element type was undefined.
    UndefinedTensorElementType,
    /// Retrieving the model's metadata failed.
    GetModelMetadata(ErrorInternal),
    /// A tensor was extracted as another element type than it holds.
    DataTypeMismatch {
        /// The element type the tensor holds.
        actual: TensorElementDataType,
        /// The element type asked for, not equal to `actual`.
        requested: TensorElementDataType,
    },
    /// Loading a symbol from the dynamic library failed.
    DlLoad { symbol: &'static str, error: String },
    /// An execution provider reported a failure.
    ExecutionProvider(ErrorInternal),
    /// The named execution provider is not compiled in.
    ExecutionProviderNotRegistered(&'static str),
    /// Tensor data was asked for on the CPU, but the tensor lives on the named device.
    TensorNotOnCpu(&'static str),
    /// String tensors need the session's allocator.
    StringTensorRequiresAllocator,
    /// Creating memory information failed.
    CreateMemoryInfo(ErrorInternal),
    /// Getting the allocation device from memory information failed.
    GetAllocationDevice(ErrorInternal),
    /// Getting the available execution providers failed.
    GetAvailableProviders(ErrorInternal),
    /// The named allocation device is unknown.
    UnknownAllocationDevice(String),
    /// Binding an input failed.
    BindInput(ErrorInternal),
    /// Binding an output failed.
    BindOutput(ErrorInternal),
    /// Clearing an IO binding failed.
    ClearBinding(ErrorInternal),
    /// Retrieving outputs from an IO binding failed.
    GetBoundOutputs(ErrorInternal),
}

impl From<std::convert::Infallible> for Error {
    fn from(_e: std::convert::Infallible) -> (r: Error)
        ensures
            r == Error::Infallible,
    {
        Error::Infallible
    }
}

impl vstd::std_specs::convert::FromSpecImpl<std::convert::Infallible> for Error {
    open spec fn obeys_from_spec() -> bool {
        true
    }

    open spec fn from_spec(_e: std::convert::Infallible) -> Error {
        Error::Infallible
    }
}

impl From<FetchModelError> for Error {
    fn from(e: FetchModelError) -> (r: Error)
        ensures
            r == Error::DownloadError(e),
    {
        Error::DownloadError(e)
    }
}

impl vstd::std_specs::convert::FromSpecImpl<FetchModelError> for Error {
    open spec fn obeys_from_spec() -> bool {
        true
    }

    open spec fn from_spec(e: FetchModelError) -> Error {
        Error::DownloadError(e)
    }
}

impl From<std::string::FromUtf8Error> for Error {
    fn from(e: std::string::FromUtf8Error) -> (r: Error)
        ensures
            r == Error::StringFromUtf8Error(e),
    {
        Error::StringFromUtf8Error(e)
    }
}

impl vstd::std_specs::convert::FromSpecImpl<std::string::FromUtf8Error> for Error {
    open spec fn obeys_from_spec() -> bool {
        true
    }

    open spec fn from_spec(e: std::string::FromUtf8Error) -> Error {
        Error::StringFromUtf8Error(e)
    }
}

/// The input dimensions of an inference call do not match the model's.
#[non_exhaustive]
#[derive(Debug)]
pub enum NonMatchingDimensionsError {
    /// The number of inputs differs from the model's.
    InputsCount {
        /// Number of inputs of the inference call.
        inference_input_count: usize,
        /// Number of inputs of the model.
        model_input_count: usize,
        /// Input dimensions of the inference call.
        inference_input: Vec<Vec<usize>>,
        /// Input dimensions of the model; `None` stands for a free dimension.
        model_input: Vec<Vec<Option<u32>>>,
    },
    /// The input lengths differ from the model's.
    InputsLength {
        /// Input dimensions of the inference call.
        inference_input: Vec<Vec<usize>>,
        /// Input dimensions of the model; `None` stands for a free dimension.
        model_input: Vec<Vec<Option<u32>>>,
    },
}

/// A failure while downloading a model.
#[non_exhaustive]
#[derive(Debug)]
pub enum FetchModelError {
    /// Reading or writing failed.
    IoError(std::io::Error),
    /// The request failed.
    FetchError(Box<UreqError>),
    /// The response declares no usable transfer size.
    ContentLengthError,
    /// The number of bytes copied differs from the declared size.
    CopyError {
        /// The declared size.
        expected: u64,
        /// The number of bytes read from the network and written to the file.
        io: u64,
    },
}

impl From<std::io::Error> for FetchModelError {
    fn from(e: std::io::Error) -> (r: FetchModelError)
        ensures
            r == FetchModelError::IoError(e),
    {
        FetchModelError::IoError(e)
    }
}

impl vstd::std_specs::convert::FromSpecImpl<std::io::Error> for FetchModelError {
    open spec fn obeys_from_spec() -> bool {
        true
    }

    open spec fn from_spec(e: std::io::Error) -> FetchModelError {
        FetchModelError::IoError(e)
    }
}

/// Succeeds exactly when `ptr` is the null address; otherwise names the pointer.
pub fn assert_null_pointer(ptr: usize, name: &str) -> (r: Result<(), Error>)
    ensures
        r is Ok <==> ptr == 0,
        r matches Err(e) ==> e matches Error::PointerShouldBeNull(n) && n@ == name@,
{
    if ptr == 0 {
        Ok(())
    } else {
        Err(Error::PointerShouldBeNull(name.to_owned()))
    }
}

/// Succeeds exactly when `ptr` is not the null address; otherwise names the pointer.
pub fn assert_non_null_pointer(ptr: usize, name: &str) -> (r: Result<(), Error>)
    ensures
        r is Ok <==> ptr != 0,
        r matches Err(e) ==> e matches Error::PointerShouldNotBeNull(n) && n@ == name@,
{
    if ptr != 0 {
        Ok(())
    } else {
        Err(Error::PointerShouldNotBeNull(name.to_owned()))
    }
}

/// What the native layer's error message turned into.
#[non_exhaustive]
#[derive(Debug)]
pub enum ErrorInternal {
    /// Details about the error.
    Msg(String),
    /// Converting the native error message to UTF-8 failed.
    IntoStringError(std::string::FromUtf8Error),
}

/// The mathematical content of an [`ErrorInternal`].
pub enum DetailView {
    Msg(Seq<char>),
    Undecodable,
}

impl ErrorInternal {
    pub open spec fn view(&self) -> DetailView {
        match self {
            ErrorInternal::Msg(m) => DetailView::Msg(m@),
            ErrorInternal::IntoStringError(_) => DetailView::Undecodable,
        }
    }
}

} // verus!
