use vstd::prelude::*;
use crate::text::concat;

verus! {

/// Errors reported by the service, each carrying a human readable detail.
#[derive(Debug, Clone)]
pub enum AppError {
    InternalError(String),
    NotFound(String),
    BadRequest(String),
    ValidationError(String),
    IoError(String),
    PythonError(String),
    ModelError(String),
    SynthesisError(String),
    TrainingError(String),
    AnnotationError(String),
}

/// `e` is a `NotFound` error with this detail.
pub open spec fn is_not_found(e: AppError, detail: Seq<char>) -> bool {
    e matches AppError::NotFound(m) && m@ == detail
}

/// `e` is a `BadRequest` error with this detail.
pub open spec fn is_bad_request(e: AppError, detail: Seq<char>) -> bool {
    e matches AppError::BadRequest(m) && m@ == detail
}

/// `e` is a `ValidationError` with this detail.
pub open spec fn is_validation_error(e: AppError, detail: Seq<char>) -> bool {
    e matches AppError::ValidationError(m) && m@ == detail
}

/// `e` is an `InternalError` with this detail.
pub open spec fn is_internal_error(e: AppError, detail: Seq<char>) -> bool {
    e matches AppError::InternalError(m) && m@ == detail
}

impl AppError {
    /// The detail text carried by the error.
    pub open spec fn detail(&self) -> Seq<char> {
        match self {
            AppError::InternalError(m) => m@,
            AppError::NotFound(m) => m@,
            AppError::BadRequest(m) => m@,
            AppError::ValidationError(m) => m@,
            AppError::IoError(m) => m@,
            AppError::PythonError(m) => m@,
            AppError::ModelError(m) => m@,
            AppError::SynthesisError(m) => m@,
            AppError::TrainingError(m) => m@,
            AppError::AnnotationError(m) => m@,
        }
    }

    /// The machine readable code of each kind of error.
    pub open spec fn code_spec(&self) -> Seq<char> {
        match self {
            AppError::InternalError(_) => "INTERNAL_ERROR"@,
            AppError::NotFound(_) => "NOT_FOUND"@,
            AppError::BadRequest(_) => "BAD_REQUEST"@,
            AppError::ValidationError(_) => "VALIDATION_ERROR"@,
            AppError::IoError(_) => "IO_ERROR"@,
            AppError::PythonError(_) => "PYTHON_ERROR"@,
            AppError::ModelError(_) => "MODEL_ERROR"@,
            AppError::SynthesisError(_) => "SYNTHESIS_ERROR"@,
            AppError::TrainingError(_) => "TRAINING_ERROR"@,
            AppError::AnnotationError(_) => "ANNOTATION_ERROR"@,
        }
    }

    /// The words that open the displayed text of each kind of error.
    pub open spec fn title_spec(&self) -> Seq<char> {
        match self {
            AppError::InternalError(_) => "Internal Error"@,
            AppError::NotFound(_) => "Not Found"@,
            AppError::BadRequest(_) => "Bad Request"@,
            AppError::ValidationError(_) => "Validation Error"@,
            AppError::IoError(_) => "IO Error"@,
            AppError::PythonError(_) => "Python Error"@,
            AppError::ModelError(_) => "Model Error"@,
            AppError::SynthesisError(_) => "Synthesis Error"@,
            AppError::TrainingError(_) => "Training Error"@,
            AppError::AnnotationError(_) => "Annotation Error"@,
        }
    }

    /// The HTTP status with which each kind of error is answered.
    pub open spec fn status_spec(&self) -> u16 {
        match self {
            AppError::InternalError(_) | AppError::PythonError(_) | AppError::IoError(_) => 500,
            AppError::NotFound(_) => 404,
            _ => 400,
        }
    }

    /// The machine readable code of this error.
    pub fn error_code(&self) -> (res: &'static str)
        ensures
            res@ == self.code_spec(),
    {
        match self {
            AppError::InternalError(_) => "INTERNAL_ERROR",
            AppError::NotFound(_) => "NOT_FOUND",
            AppError::BadRequest(_) => "BAD_REQUEST",
            AppError::ValidationError(_) => "VALIDATION_ERROR",
            AppError::IoError(_) => "IO_ERROR",
            AppError::PythonError(_) => "PYTHON_ERROR",
            AppError::ModelError(_) => "MODEL_ERROR",
            AppError::SynthesisError(_) => "SYNTHESIS_ERROR",
            AppError::TrainingError(_) => "TRAINING_ERROR",
            AppError::AnnotationError(_) => "ANNOTATION_ERROR",
        }
    }

    fn title(&self) -> (res: &'static str)
        ensures
            res@ == self.title_spec(),
    {
        match self {
            AppError::InternalError(_) => "Internal Error",
            AppError::NotFound(_) => "Not Found",
            AppError::BadRequest(_) => "Bad Request",
            AppError::ValidationError(_) => "Validation Error",
            AppError::IoError(_) => "IO Error",
            AppError::PythonError(_) => "Python Error",
            AppError::ModelError(_) => "Model Error",
            AppError::SynthesisError(_) => "Synthesis Error",
            AppError::TrainingError(_) => "Training Error",
            AppError::AnnotationError(_) => "Annotation Error",
        }
    }

    fn detail_str(&self) -> (res: &str)
        ensures
            res@ == self.detail(),
    {
        match self {
            AppError::InternalError(m) => m.as_str(),
            AppError::NotFound(m) => m.as_str(),
            AppError::BadRequest(m) => m.as_str(),
            AppError::ValidationError(m) => m.as_str(),
            AppError::IoError(m) => m.as_str(),
            AppError::PythonError(m) => m.as_str(),
            AppError::ModelError(m) => m.as_str(),
            AppError::SynthesisError(m) => m.as_str(),
            AppError::TrainingError(m) => m.as_str(),
            AppError::AnnotationError(m) => m.as_str(),
        }
    }

    /// The displayed text: the title of the kind, a colon and a space, then the detail.
    pub fn to_string(&self) -> (res: String)
        ensures
            res@ == self.title_spec() + ": "@ + self.detail(),
    {
        let head = concat(self.title(), ": ");
        concat(head.as_str(), self.detail_str())
    }

    /// The HTTP status with which this error is answered.
    pub fn status_code(&self) -> (res: u16)
        ensures
            res == self.status_spec(),
    {
        match self {
            AppError::InternalError(_) | AppError::PythonError(_) | AppError::IoError(_) => 500,
            AppError::NotFound(_) => 404,
            _ => 400,
        }
    }

    /// The status of an answer that reports this error as a missing resource
    /// when it is one, and with `otherwise` when it is not.
    pub fn not_found_or(&self, otherwise: u16) -> (res: u16)
        ensures
            self is NotFound ==> res == 404,
            !(self is NotFound) ==> res == otherwise,
    {
        match self {
            AppError::NotFound(_) => 404,
            _ => otherwise,
        }
    }

    /// The status and code with which a failed synthesis is answered:
    /// invalid requests and failed syntheses are the client's (400), the rest
    /// are internal (500).
    pub fn synthesis_failure(&self) -> (res: (u16, &'static str))
        ensures
            self is ValidationError ==> res.0 == 400 && res.1@ == "VALIDATION_ERROR"@,
            self is SynthesisError ==> res.0 == 400 && res.1@ == "SYNTHESIS_ERROR"@,
            !(self is ValidationError) && !(self is SynthesisError) ==> res.0 == 500 && res.1@ == "INTERNAL_ERROR"@,
    {
        match self {
            AppError::ValidationError(_) => (400, "VALIDATION_ERROR"),
            AppError::SynthesisError(_) => (400, "SYNTHESIS_ERROR"),
            _ => (500, "INTERNAL_ERROR"),
        }
    }
}

} // verus!
