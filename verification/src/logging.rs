//! Options controlling how errors are formatted by the logging helpers, and
//! the byte-exact composition of log messages.  Reading the caller's
//! location and an error's text, and writing the composed bytes to a stream,
//! happen outside the library; everything about the shape of a message is
//! decided here.

use crate::command::push_bytes;
use crate::decimal::{dec_digits, push_decimal};
use vstd::prelude::*;
use vstd::utf8::encode_utf8;

verus! {

/// Controls how an error's source (its underlying cause) is formatted.
#[derive(Clone, Copy, Debug, PartialEq, Eq, Structural)]
pub struct ErrorSourceLoggingOptions {
    /// Whether the source's own message is included.
    pub include_msg: bool,
}

/// Controls how an error is formatted by the error-logging helpers.
#[derive(Clone, Copy, Debug, PartialEq, Eq, Structural)]
pub struct ErrorLoggingOptions {
    /// Whether the error's source is included and, when it is, how the
    /// source is formatted.
    pub source: Option<ErrorSourceLoggingOptions>,
    /// Whether the name of the error type is included.
    pub include_error_name: bool,
    /// Whether the location of the caller is included.
    pub include_location: bool,
}

/// Presets for `ErrorLoggingOptions`.
#[derive(Clone, Copy, Debug, PartialEq, Eq, Structural)]
pub enum ErrorLoggingOptionsPresets {
    /// The error's message alone: no source, no type name, no location.
    Simple,
    /// Everything: the source with its message, the type name, and the
    /// caller's location.
    Standard,
}

/// The options a preset stands for.
pub open spec fn options_of_preset(preset: ErrorLoggingOptionsPresets) -> ErrorLoggingOptions {
    match preset {
        ErrorLoggingOptionsPresets::Simple => ErrorLoggingOptions {
            source: None,
            include_error_name: false,
            include_location: false,
        },
        ErrorLoggingOptionsPresets::Standard => ErrorLoggingOptions {
            source: Some(ErrorSourceLoggingOptions { include_msg: true }),
            include_error_name: true,
            include_location: true,
        },
    }
}

impl From<ErrorLoggingOptionsPresets> for ErrorLoggingOptions {
    fn from(preset: ErrorLoggingOptionsPresets) -> (r: ErrorLoggingOptions) {
        match preset {
            ErrorLoggingOptionsPresets::Simple => ErrorLoggingOptions {
                source: None,
                include_error_name: false,
                include_location: false,
            },
            ErrorLoggingOptionsPresets::Standard => ErrorLoggingOptions {
                source: Some(ErrorSourceLoggingOptions { include_msg: true }),
                include_error_name: true,
                include_location: true,
            },
        }
    }
}

impl vstd::std_specs::convert::FromSpecImpl<ErrorLoggingOptionsPresets> for ErrorLoggingOptions {
    open spec fn obeys_from_spec() -> bool {
        true
    }

    open spec fn from_spec(preset: ErrorLoggingOptionsPresets) -> ErrorLoggingOptions {
        options_of_preset(preset)
    }
}

impl Default for ErrorLoggingOptions {
    /// The standard preset: everything included.
    fn default() -> (r: ErrorLoggingOptions)
        ensures
            r == options_of_preset(ErrorLoggingOptionsPresets::Standard),
    {
        ErrorLoggingOptions::from(ErrorLoggingOptionsPresets::Standard)
    }
}

/// The bytes of a caller-location stamp: `[file:line:column] `.
pub open spec fn location_stamp_bytes(file: Seq<char>, line: nat, column: nat) -> Seq<u8> {
    seq![0x5bu8] + encode_utf8(file) + seq![0x3au8] + dec_digits(line) + seq![0x3au8] + dec_digits(
        column,
    ) + seq![0x5du8, 0x20u8]
}

/// The bytes of a location-stamped log line: `[file:line:column] message`
/// and a trailing newline.
pub open spec fn log_message_bytes(
    file: Seq<char>,
    line: nat,
    column: nat,
    message: Seq<char>,
) -> Seq<u8> {
    location_stamp_bytes(file, line, column) + encode_utf8(message) + seq![0x0au8]
}

/// Appends a caller-location stamp to `r`.
fn push_location_stamp(r: &mut Vec<u8>, file: &str, line: u32, column: u32)
    ensures
        final(r)@ == old(r)@ + location_stamp_bytes(file@, line as nat, column as nat),
{
    r.push(0x5b);
    push_bytes(r, file.as_bytes());
    r.push(0x3a);
    push_decimal(r, line as u64);
    r.push(0x3a);
    push_decimal(r, column as u64);
    r.push(0x5d);
    r.push(0x20);
    proof {
        assert(r@ =~= old(r)@ + location_stamp_bytes(file@, line as nat, column as nat));
    }
}

/// Composes a location-stamped log line.
pub fn compose_log_message(file: &str, line: u32, column: u32, message: &str) -> (r: Vec<u8>)
    ensures
        r@ == log_message_bytes(file@, line as nat, column as nat, message@),
{
    let mut r: Vec<u8> = Vec::new();
    push_location_stamp(&mut r, file, line, column);
    push_bytes(&mut r, message.as_bytes());
    r.push(0x0a);
    proof {
        assert(r@ =~= log_message_bytes(file@, line as nat, column as nat, message@));
    }
    r
}

/// The bytes of the `ERROR: ` marker.
pub open spec fn error_marker_bytes() -> Seq<u8> {
    seq![0x45u8, 0x52u8, 0x52u8, 0x4fu8, 0x52u8, 0x3au8, 0x20u8]
}

/// The bytes of the ` (caused by ` opener of a source clause.
pub open spec fn caused_by_bytes() -> Seq<u8> {
    seq![
        0x20u8,
        0x28u8,
        0x63u8,
        0x61u8,
        0x75u8,
        0x73u8,
        0x65u8,
        0x64u8,
        0x20u8,
        0x62u8,
        0x79u8,
        0x20u8,
    ]
}

/// The source clause of an error message: nothing unless the options ask for
/// the source and the error has one; otherwise ` (caused by error_name)` or
/// ` (caused by error_name: source_message)`.
pub open spec fn source_clause_bytes(
    options: ErrorLoggingOptions,
    error_name: Seq<char>,
    source_message: Option<Seq<char>>,
) -> Seq<u8> {
    match (options.source, source_message) {
        (Some(source_options), Some(message)) => caused_by_bytes() + encode_utf8(error_name) + (
        if source_options.include_msg {
            seq![0x3au8, 0x20u8] + encode_utf8(message)
        } else {
            Seq::empty()
        }) + seq![0x29u8],
        _ => Seq::empty(),
    }
}

/// The bytes of a formatted error message: an optional location stamp, the
/// `ERROR: ` marker, an optional type name, the error's message, and an
/// optional source clause.
pub open spec fn error_message_bytes(
    options: ErrorLoggingOptions,
    file: Seq<char>,
    line: nat,
    column: nat,
    error_name: Seq<char>,
    message: Seq<char>,
    source_message: Option<Seq<char>>,
) -> Seq<u8> {
    (if options.include_location {
        location_stamp_bytes(file, line, column)
    } else {
        Seq::empty()
    }) + error_marker_bytes() + (if options.include_error_name {
        encode_utf8(error_name) + seq![0x3au8, 0x20u8]
    } else {
        Seq::empty()
    }) + encode_utf8(message) + source_clause_bytes(options, error_name, source_message)
}

/// Appends the `ERROR: ` marker to `r`.
fn push_error_marker(r: &mut Vec<u8>)
    ensures
        final(r)@ == old(r)@ + error_marker_bytes(),
{
    r.push(0x45);
    r.push(0x52);
    r.push(0x52);
    r.push(0x4f);
    r.push(0x52);
    r.push(0x3a);
    r.push(0x20);
    proof {
        assert(r@ =~= old(r)@ + error_marker_bytes());
    }
}

/// Appends the source clause the options ask for, if the error has a source.
fn push_source_clause(
    r: &mut Vec<u8>,
    options: &ErrorLoggingOptions,
    error_name: &str,
    source_message: Option<&str>,
)
    ensures
        final(r)@ == old(r)@ + source_clause_bytes(
            *options,
            error_name@,
            match source_message {
                Some(s) => Some(s@),
                None => None,
            },
        ),
{
    if let (Some(source_options), Some(source)) = (&options.source, source_message) {
        r.push(0x20);
        r.push(0x28);
        r.push(0x63);
        r.push(0x61);
        r.push(0x75);
        r.push(0x73);
        r.push(0x65);
        r.push(0x64);
        r.push(0x20);
        r.push(0x62);
        r.push(0x79);
        r.push(0x20);
        proof {
            assert(r@ =~= old(r)@ + caused_by_bytes());
        }
        push_bytes(r, error_name.as_bytes());
        if source_options.include_msg {
            r.push(0x3a);
            r.push(0x20);
            push_bytes(r, source.as_bytes());
        }
        r.push(0x29);
        proof {
            assert(r@ =~= old(r)@ + source_clause_bytes(
                *options,
                error_name@,
                match source_message {
                    Some(s) => Some(s@),
                    None => None,
                },
            ));
        }
    } else {
        proof {
            assert(r@ =~= old(r)@ + source_clause_bytes(
                *options,
                error_name@,
                match source_message {
                    Some(s) => Some(s@),
                    None => None,
                },
            ));
        }
    }
}

/// Composes a formatted error message under the given options.  The caller
/// supplies its own location, the error type's name, the error's message and
/// the message of the error's source, if it has one.
pub fn compose_error_message(
    options: &ErrorLoggingOptions,
    file: &str,
    line: u32,
    column: u32,
    error_name: &str,
    message: &str,
    source_message: Option<&str>,
) -> (r: Vec<u8>)
    ensures
        r@ == error_message_bytes(
            *options,
            file@,
            line as nat,
            column as nat,
            error_name@,
            message@,
            match source_message {
                Some(s) => Some(s@),
                None => None,
            },
        ),
{
    let ghost location_part = if options.include_location {
        location_stamp_bytes(file@, line as nat, column as nat)
    } else {
        Seq::<u8>::empty()
    };
    let ghost name_part = if options.include_error_name {
        encode_utf8(error_name@) + seq![0x3au8, 0x20u8]
    } else {
        Seq::<u8>::empty()
    };
    let mut r: Vec<u8> = Vec::new();
    if options.include_location {
        push_location_stamp(&mut r, file, line, column);
    }
    proof {
        assert(r@ =~= location_part);
    }
    push_error_marker(&mut r);
    if options.include_error_name {
        push_bytes(&mut r, error_name.as_bytes());
        r.push(0x3a);
        r.push(0x20);
    }
    proof {
        assert(r@ =~= location_part + error_marker_bytes() + name_part);
    }
    push_bytes(&mut r, message.as_bytes());
    push_source_clause(&mut r, options, error_name, source_message);
    proof {
        assert(r@ =~= error_message_bytes(
            *options,
            file@,
            line as nat,
            column as nat,
            error_name@,
            message@,
            match source_message {
                Some(s) => Some(s@),
                None => None,
            },
        ));
    }
    r
}

} // verus!
