//! Classification of failures: the classified error value handed to
//! callers, the models of transport-level and JSON decode failures, and the
//! rules that map each failure to a kind of the taxonomy.

use vstd::prelude::*;

use crate::context::{Context, CtxModel};
use crate::kinds::{status_kind_spec, try_from_status, ErrorKind};

verus! {

/// The mathematical value of a [`ClassifiedError`].
pub ghost struct ErrorModel {
    pub kind: ErrorKind,
    pub message: Seq<char>,
    pub details: Option<Map<Seq<char>, CtxModel>>,
}

/// A classified failure: its kind in the taxonomy, a message, and the
/// diagnostic context gathered while the request ran.
#[derive(Debug)]
pub struct ClassifiedError {
    pub kind: ErrorKind,
    pub message: String,
    pub details: Option<Context>,
}

impl View for ClassifiedError {
    type V = ErrorModel;

    open spec fn view(&self) -> ErrorModel {
        ErrorModel {
            kind: self.kind,
            message: self.message@,
            details: match self.details {
                Some(d) => Some(d@),
                None => None,
            },
        }
    }
}

impl ClassifiedError {
    /// Well-formed: the attached context, if any, is well-formed.
    pub open spec fn wf(&self) -> bool {
        match self.details {
            Some(d) => d.wf(),
            None => true,
        }
    }

    /// A copy of the error, equal to the original.
    pub fn duplicate(&self) -> (r: ClassifiedError)
        requires
            self.wf(),
        ensures
            r.wf(),
            r@ == self@,
    {
        ClassifiedError {
            kind: self.kind,
            message: self.message.clone(),
            details: match &self.details {
                Some(d) => Some(d.duplicate()),
                None => None,
            },
        }
    }
}

/// A transport-level failure, by what the transport reports of it: a
/// response status attached to the failure, a client-construction failure,
/// a body or decode failure, a connect or timeout failure, some other
/// failure of the request, or an uncategorized one.
#[derive(Debug)]
pub enum TransportFailure {
    WithStatus { status: u16, message: String },
    Builder { message: String },
    Content { message: String },
    Connect { message: String },
    Timeout { message: String },
    Request { message: String },
    Other { message: String },
}

/// A JSON decode or encode failure, by its category.
#[derive(Debug)]
pub enum JsonFailure {
    Io { message: String },
    Syntax { message: String },
    Data { message: String },
    Eof { message: String },
}

/// The kind for a status code, falling back to the unexpected-error kind
/// where the taxonomy has no kind for the status.
pub open spec fn status_kind_or_unknown(status: u16) -> ErrorKind {
    match status_kind_spec(status) {
        Some(k) => k,
        None => ErrorKind::UnknownError,
    }
}

/// The context attached to an error: the given one, or empty.
pub open spec fn detail_map(d: Option<Map<Seq<char>, CtxModel>>) -> Map<Seq<char>, CtxModel> {
    match d {
        Some(m) => m,
        None => Map::empty(),
    }
}

/// The classification rule for a transport-level failure.
pub open spec fn transport_error_model(
    f: TransportFailure,
    d: Option<Map<Seq<char>, CtxModel>>,
) -> ErrorModel {
    match f {
        TransportFailure::WithStatus { status, message } => ErrorModel {
            kind: status_kind_or_unknown(status),
            message: message@,
            details: Some(detail_map(d)),
        },
        TransportFailure::Builder { message } => ErrorModel {
            kind: ErrorKind::GenericHttpClientError,
            message: message@,
            details: Some(detail_map(d)),
        },
        TransportFailure::Content { message } => ErrorModel {
            kind: ErrorKind::ContentError,
            message: message@,
            details: Some(detail_map(d)),
        },
        TransportFailure::Connect { message } => ErrorModel {
            kind: ErrorKind::NetworkConnection,
            message: message@,
            details: Some(detail_map(d)),
        },
        TransportFailure::Timeout { message } => ErrorModel {
            kind: ErrorKind::NetworkConnection,
            message: message@,
            details: Some(detail_map(d)),
        },
        TransportFailure::Request { message } => ErrorModel {
            kind: ErrorKind::RequestError,
            message: message@,
            details: Some(detail_map(d)),
        },
        TransportFailure::Other { message } => ErrorModel {
            kind: ErrorKind::UnknownError,
            message: message@,
            details: Some(detail_map(d)),
        },
    }
}

/// The classification rule for a response with a failing status code.
pub open spec fn response_error_model(
    status: u16,
    body: Seq<char>,
    d: Option<Map<Seq<char>, CtxModel>>,
) -> ErrorModel {
    ErrorModel {
        kind: status_kind_or_unknown(status),
        message: body,
        details: Some(detail_map(d)),
    }
}

/// The classification rule for a JSON failure.
pub open spec fn json_error_model(
    f: JsonFailure,
    d: Option<Map<Seq<char>, CtxModel>>,
) -> ErrorModel {
    match f {
        JsonFailure::Io { message } => ErrorModel {
            kind: ErrorKind::JsonIoError,
            message: message@,
            details: Some(detail_map(d)),
        },
        JsonFailure::Syntax { message } => ErrorModel {
            kind: ErrorKind::JsonSyntaxError,
            message: message@,
            details: Some(detail_map(d)),
        },
        JsonFailure::Data { message } => ErrorModel {
            kind: ErrorKind::JsonDataError,
            message: message@,
            details: Some(detail_map(d)),
        },
        JsonFailure::Eof { message } => ErrorModel {
            kind: ErrorKind::JsonEof,
            message: message@,
            details: Some(detail_map(d)),
        },
    }
}

/// The view of an optional context, for stating what a classifier returns.
pub open spec fn opt_ctx_view(context: Option<Context>) -> Option<Map<Seq<char>, CtxModel>> {
    match context {
        Some(c) => Some(c@),
        None => None,
    }
}

/// Whether an optional context is well-formed.
pub open spec fn opt_ctx_wf(context: Option<Context>) -> bool {
    match context {
        Some(c) => c.wf(),
        None => true,
    }
}

fn take_context(context: Option<Context>) -> (r: Context)
    requires
        opt_ctx_wf(context),
    ensures
        r.wf(),
        r@ == detail_map(opt_ctx_view(context)),
{
    match context {
        Some(c) => c,
        None => Context::new(),
    }
}

/// Classifies a transport-level failure: a failure with a status code maps
/// to that status's kind; a client-construction failure to the generic
/// client kind; a body or decode failure to the content kind; a connect or
/// timeout failure to the network kind; another request failure to the
/// request kind; anything else to the unexpected kind. The given context is
/// attached as the error's details.
pub fn http_error_serialize(error: TransportFailure, context: Option<Context>) -> (r:
    ClassifiedError)
    requires
        opt_ctx_wf(context),
    ensures
        r.wf(),
        r@ == transport_error_model(error, opt_ctx_view(context)),
{
    let ctx = take_context(context);
    match error {
        TransportFailure::WithStatus { status, message } => ClassifiedError {
            kind: match try_from_status(status) {
                Some(k) => k,
                None => ErrorKind::UnknownError,
            },
            message,
            details: Some(ctx),
        },
        TransportFailure::Builder { message } => ClassifiedError {
            kind: ErrorKind::GenericHttpClientError,
            message,
            details: Some(ctx),
        },
        TransportFailure::Content { message } => ClassifiedError {
            kind: ErrorKind::ContentError,
            message,
            details: Some(ctx),
        },
        TransportFailure::Connect { message } => ClassifiedError {
            kind: ErrorKind::NetworkConnection,
            message,
            details: Some(ctx),
        },
        TransportFailure::Timeout { message } => ClassifiedError {
            kind: ErrorKind::NetworkConnection,
            message,
            details: Some(ctx),
        },
        TransportFailure::Request { message } => ClassifiedError {
            kind: ErrorKind::RequestError,
            message,
            details: Some(ctx),
        },
        TransportFailure::Other { message } => ClassifiedError {
            kind: ErrorKind::UnknownError,
            message,
            details: Some(ctx),
        },
    }
}

/// Classifies a response bearing a failing status code: the kind is the
/// status's kind, the message is the response body, and the given context
/// becomes the error's details.
pub fn http_resp_serialise(status: u16, body: String, context: Option<Context>) -> (r:
    ClassifiedError)
    requires
        opt_ctx_wf(context),
    ensures
        r.wf(),
        r@ == response_error_model(status, body@, opt_ctx_view(context)),
{
    let ctx = take_context(context);
    ClassifiedError {
        kind: match try_from_status(status) {
            Some(k) => k,
            None => ErrorKind::UnknownError,
        },
        message: body,
        details: Some(ctx),
    }
}

/// Classifies a JSON failure by its category: input/output failures,
/// malformed syntax, a value of the wrong shape, and truncated input each
/// map to their own kind. The given context becomes the error's details.
pub fn json_error_serialize(err: JsonFailure, context: Option<Context>) -> (r: ClassifiedError)
    requires
        opt_ctx_wf(context),
    ensures
        r.wf(),
        r@ == json_error_model(err, opt_ctx_view(context)),
{
    let ctx = take_context(context);
    match err {
        JsonFailure::Io { message } => ClassifiedError {
            kind: ErrorKind::JsonIoError,
            message,
            details: Some(ctx),
        },
        JsonFailure::Syntax { message } => ClassifiedError {
            kind: ErrorKind::JsonSyntaxError,
            message,
            details: Some(ctx),
        },
        JsonFailure::Data { message } => ClassifiedError {
            kind: ErrorKind::JsonDataError,
            message,
            details: Some(ctx),
        },
        JsonFailure::Eof { message } => ClassifiedError {
            kind: ErrorKind::JsonEof,
            message,
            details: Some(ctx),
        },
    }
}

/// Classification is a function of the outcome alone: classifying equal
/// transport failures with equal contexts yields equal classified errors.
pub proof fn lemma_transport_classification_deterministic(
    f1: TransportFailure,
    f2: TransportFailure,
    d1: Option<Map<Seq<char>, CtxModel>>,
    d2: Option<Map<Seq<char>, CtxModel>>,
)
    requires
        f1 == f2,
        d1 == d2,
    ensures
        transport_error_model(f1, d1) == transport_error_model(f2, d2),
{
}

/// Classification is a function of the outcome alone: classifying equal
/// failing responses with equal contexts yields equal classified errors.
pub proof fn lemma_response_classification_deterministic(
    status1: u16,
    status2: u16,
    body1: Seq<char>,
    body2: Seq<char>,
    d1: Option<Map<Seq<char>, CtxModel>>,
    d2: Option<Map<Seq<char>, CtxModel>>,
)
    requires
        status1 == status2,
        body1 == body2,
        d1 == d2,
    ensures
        response_error_model(status1, body1, d1) == response_error_model(status2, body2, d2),
{
}

/// Classification is a function of the outcome alone: classifying equal
/// JSON failures with equal contexts yields equal classified errors.
pub proof fn lemma_json_classification_deterministic(
    j1: JsonFailure,
    j2: JsonFailure,
    d1: Option<Map<Seq<char>, CtxModel>>,
    d2: Option<Map<Seq<char>, CtxModel>>,
)
    requires
        j1 == j2,
        d1 == d2,
    ensures
        json_error_model(j1, d1) == json_error_model(j2, d2),
{
}

} // verus!
