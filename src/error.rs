use vstd::prelude::*;

verus! {

/// The failure kinds shared by every component.
#[derive(Clone, Debug)]
pub enum MlError {
    InvalidRequest(String),
    Decode(String),
    Preprocess(String),
    Ort(String),
    Postprocess(String),
    Runtime(String),
}

pub type MlResult<T> = Result<T, MlError>;

/// The label that introduces an error of each kind in its message.
pub open spec fn kind_label(e: MlError) -> Seq<char> {
    match e {
        MlError::InvalidRequest(_) => "invalid request: "@,
        MlError::Decode(_) => "decode error: "@,
        MlError::Preprocess(_) => "preprocess error: "@,
        MlError::Ort(_) => "onnx runtime error: "@,
        MlError::Postprocess(_) => "postprocess error: "@,
        MlError::Runtime(_) => "runtime error: "@,
    }
}

/// The detail text carried by an error.
pub open spec fn detail(e: MlError) -> Seq<char> {
    match e {
        MlError::InvalidRequest(s) => s@,
        MlError::Decode(s) => s@,
        MlError::Preprocess(s) => s@,
        MlError::Ort(s) => s@,
        MlError::Postprocess(s) => s@,
        MlError::Runtime(s) => s@,
    }
}

impl MlError {
    /// The human-readable message: the kind's label followed by the detail.
    pub fn message(&self) -> (r: String)
        ensures
            r@ == kind_label(*self) + detail(*self),
    {
        let (label, text): (&str, &String) = match self {
            MlError::InvalidRequest(s) => ("invalid request: ", s),
            MlError::Decode(s) => ("decode error: ", s),
            MlError::Preprocess(s) => ("preprocess error: ", s),
            MlError::Ort(s) => ("onnx runtime error: ", s),
            MlError::Postprocess(s) => ("postprocess error: ", s),
            MlError::Runtime(s) => ("runtime error: ", s),
        };
        let mut out = String::from_str(label);
        out.append(text.as_str());
        out
    }
}

} // verus!
