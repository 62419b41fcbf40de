//! The error body that the remote service returns, and how it is shown.

use crate::decimal::{decimal, decimal_text};
use crate::json::{json_model, json_text, value_text, JsonModel};
use vstd::prelude::*;

verus! {

/// A structured error returned by the remote service.
#[derive(Debug)]
pub struct SupabaseHTTPError {
    /// Status-like code of the failure.
    pub code: i32,
    /// Short machine-readable name of the failure.
    pub error_code: Option<String>,
    /// Human-readable description; `msg` on the wire.
    pub message: String,
    /// Details of the failure inside the service, of any JSON shape.
    pub internal_error: Option<serde_json::Value>,
    /// A message from inside the service, of any JSON shape.
    pub internal_message: Option<serde_json::Value>,
    /// Identifier under which the service logged the failure.
    pub error_id: Option<String>,
}

/// The fields of a [`SupabaseHTTPError`] as mathematical values.
pub struct PayloadView {
    pub code: int,
    pub error_code: Option<Seq<char>>,
    pub message: Seq<char>,
    pub internal_error: Option<JsonModel>,
    pub internal_message: Option<JsonModel>,
    pub error_id: Option<Seq<char>>,
}

/// The characters of an optional string.
pub open spec fn text_view(s: Option<String>) -> Option<Seq<char>> {
    match s {
        Some(s) => Some(s@),
        None => None,
    }
}

/// The contents of an optional JSON value.
pub open spec fn json_view(v: Option<serde_json::Value>) -> Option<JsonModel> {
    match v {
        Some(v) => Some(json_model(v)),
        None => None,
    }
}

impl View for SupabaseHTTPError {
    type V = PayloadView;

    open spec fn view(&self) -> PayloadView {
        PayloadView {
            code: self.code as int,
            error_code: text_view(self.error_code),
            message: self.message@,
            internal_error: json_view(self.internal_error),
            internal_message: json_view(self.internal_message),
            error_id: text_view(self.error_id),
        }
    }
}

/// The first line of the display form: the code, then the error code in
/// round brackets and the error id in square brackets, each where present.
pub open spec fn status_line(
    code: int,
    error_code: Option<Seq<char>>,
    error_id: Option<Seq<char>>,
) -> Seq<char> {
    "Status Code "@ + decimal_text(code) + (match error_code {
        Some(c) => " ("@ + c + ")"@,
        None => Seq::empty(),
    }) + (match error_id {
        Some(id) => " [Error ID: "@ + id + "]"@,
        None => Seq::empty(),
    })
}

/// A line of its own that starts with `label`, for a JSON value that is
/// present; nothing for one that is absent.
pub open spec fn detail_line(label: Seq<char>, detail: Option<JsonModel>) -> Seq<char> {
    match detail {
        Some(m) => label + json_text(m),
        None => Seq::empty(),
    }
}

/// The display form of a payload: the status line, the internal message and
/// the internal error on lines of their own where present, and the message on
/// the last line.
pub open spec fn rendered(p: PayloadView) -> Seq<char> {
    status_line(p.code, p.error_code, p.error_id) + detail_line(
        "\nInternal message: "@,
        p.internal_message,
    ) + detail_line("\nInternal error: "@, p.internal_error) + "\nMessage: "@ + p.message
}

impl SupabaseHTTPError {
    /// The display form of this payload.
    pub open spec fn rendering(&self) -> Seq<char> {
        rendered(self@)
    }

    /// Renders the payload for a reader.
    pub fn to_string(&self) -> (r: String)
        ensures
            r@ == self.rendering(),
    {
        let mut out = String::from_str("Status Code ");
        let code_text = decimal(self.code as i64);
        out.append(code_text.as_str());
        match &self.error_code {
            Some(error_code) => {
                out.append(" (");
                out.append(error_code.as_str());
                out.append(")");
            },
            None => {},
        }
        match &self.error_id {
            Some(error_id) => {
                out.append(" [Error ID: ");
                out.append(error_id.as_str());
                out.append("]");
            },
            None => {},
        }
        assert(out@ =~= status_line(
            self.code as int,
            text_view(self.error_code),
            text_view(self.error_id),
        ));
        match &self.internal_message {
            Some(internal_message) => {
                out.append("\nInternal message: ");
                let detail = value_text(internal_message);
                out.append(detail.as_str());
            },
            None => {},
        }
        match &self.internal_error {
            Some(internal_error) => {
                out.append("\nInternal error: ");
                let detail = value_text(internal_error);
                out.append(detail.as_str());
            },
            None => {},
        }
        out.append("\nMessage: ");
        out.append(self.message.as_str());
        assert(out@ =~= self.rendering());
        out
    }
}

} // verus!
