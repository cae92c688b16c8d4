use vstd::prelude::*;

verus! {

/// Errors raised by the pipeline's components.
#[derive(Debug)]
pub enum Error {
    /// A transformer could not process a message.
    Transformer(String),
    /// The forwarder's reader or writer could not be joined.
    Forwarder(String),
}

/// The mathematical model of an [`Error`]: its kind and its message.
pub enum ErrorModel {
    Transformer(Seq<char>),
    Forwarder(Seq<char>),
}

impl View for Error {
    type V = ErrorModel;

    open spec fn view(&self) -> ErrorModel {
        match self {
            Error::Transformer(m) => ErrorModel::Transformer(m@),
            Error::Forwarder(m) => ErrorModel::Forwarder(m@),
        }
    }
}

/// A result whose error is taken by its model.
pub open spec fn result_model<T>(r: Result<T, Error>) -> Result<T, ErrorModel> {
    match r {
        Ok(v) => Ok(v),
        Err(e) => Err(e@),
    }
}

} // verus!
