use vstd::prelude::*;

use crate::text::{lower_of, lowercase};

verus! {

/// The address fetched when no URL is given.
pub const DEFAULT_URL: &'static str = "https://hyper.rs";

/// The third argument that turns on printing of the response body.
pub const PRINT_BODY_FLAG: &'static str = "--print-body";

/// The HTTP method a request is sent with.
#[derive(Debug, Clone, Copy, PartialEq, Eq, Structural)]
pub enum RequestType {
    Get,
    Post,
}

/// The method named by a token that is already in lowercase: `post` selects
/// POST, every other token GET.
pub open spec fn method_of_lowered(lowered: Seq<char>) -> RequestType {
    if lowered == "post"@ {
        RequestType::Post
    } else {
        RequestType::Get
    }
}

/// The method named by a command-line token, compared without regard to case.
pub open spec fn method_of_token(token: Seq<char>) -> RequestType {
    method_of_lowered(lower_of(token))
}

impl RequestType {
    /// Selects the method from a token that has already been lowercased.
    pub fn from_lowercase(lowered: &str) -> (r: RequestType)
        ensures
            r == method_of_lowered(lowered@),
    {
        if String::from_str(lowered) == String::from_str("post") {
            RequestType::Post
        } else {
            RequestType::Get
        }
    }

    /// Selects the method from a command-line token, ignoring case.
    pub fn from_string(arg: String) -> (r: RequestType)
        ensures
            r == method_of_token(arg@),
            (r == RequestType::Post) <==> lower_of(arg@) == "post"@,
    {
        let lowered = lowercase(arg.as_str());
        RequestType::from_lowercase(lowered.as_str())
    }
}

impl Default for RequestType {
    fn default() -> (r: RequestType)
        ensures
            r == RequestType::Get,
    {
        RequestType::Get
    }
}

impl From<String> for RequestType {
    fn from(value: String) -> (r: RequestType) {
        RequestType::from_string(value)
    }
}

impl vstd::std_specs::convert::FromSpecImpl<String> for RequestType {
    open spec fn obeys_from_spec() -> bool {
        true
    }

    open spec fn from_spec(v: String) -> RequestType {
        method_of_token(v@)
    }
}

/// A parsed invocation: which method to send, to which URL, and whether the
/// response body is to be printed.
#[derive(Debug)]
pub struct Input {
    pub request_type: RequestType,
    pub url: String,
    pub print_body: bool,
}

/// The method given by the argument list: its first entry, or GET when there
/// is none.
pub open spec fn method_of_args(args: Seq<String>) -> RequestType {
    if args.len() >= 1 {
        method_of_token(args[0]@)
    } else {
        RequestType::Get
    }
}

/// The URL given by the argument list: its second entry, or the default.
pub open spec fn url_of_args(args: Seq<String>) -> Seq<char> {
    if args.len() >= 2 {
        args[1]@
    } else {
        DEFAULT_URL@
    }
}

/// Whether the argument list asks for the body: its third entry is exactly
/// the flag.
pub open spec fn print_body_of_args(args: Seq<String>) -> bool {
    args.len() >= 3 && args[2]@ == PRINT_BODY_FLAG@
}

impl Input {
    /// Parses the command-line arguments that follow the program path.
    /// Entries after the third are ignored.
    pub fn from_args(args: Vec<String>) -> (r: Input)
        ensures
            r.request_type == method_of_args(args@),
            r.url@ == url_of_args(args@),
            r.print_body == print_body_of_args(args@),
    {
        let n: usize = args.len();
        let request_type = if n >= 1 {
            RequestType::from_string(args[0].clone())
        } else {
            RequestType::default()
        };
        let url = if n >= 2 {
            args[1].clone()
        } else {
            String::from_str(DEFAULT_URL)
        };
        let print_body = n >= 3 && args[2] == String::from_str(PRINT_BODY_FLAG);
        Input { request_type, url, print_body }
    }
}

} // verus!
