//! The validated configuration of one capture, and its construction from raw inputs.
use vstd::prelude::*;
use vstd::string::*;
use crate::text::text_eq;

verus! {

/// Pixel width used when none is given.
pub const DEFAULT_WIDTH: u64 = 1920;

/// Pixel height used when none is given.
pub const DEFAULT_HEIGHT: u64 = 1080;

/// The user agent sent when none is given.
pub const DEFAULT_USER_AGENT: &'static str = "Mozilla/5.0 (X11; Linux x86_64) AppleWebKit/537.36 (KHTML, like Gecko) Chrome/58.0.3029.110 Safari/537.36";

/// Image format of the capture.
#[derive(Clone, Copy, Debug, PartialEq, Eq, Structural)]
pub enum ImageFormat {
    Png,
    Jpg,
    Webp,
}

/// The name of each format, which is also its file extension.
pub open spec fn format_text(f: ImageFormat) -> Seq<char> {
    match f {
        ImageFormat::Png => "png"@,
        ImageFormat::Jpg => "jpg"@,
        ImageFormat::Webp => "webp"@,
    }
}

/// The format that a name denotes, if any.
pub open spec fn format_named(t: Seq<char>) -> Option<ImageFormat> {
    if t == "png"@ {
        Some(ImageFormat::Png)
    } else if t == "jpg"@ {
        Some(ImageFormat::Jpg)
    } else if t == "webp"@ {
        Some(ImageFormat::Webp)
    } else {
        None
    }
}

impl ImageFormat {
    /// The format named by `t` (`png`, `jpg` or `webp`); `None` for any other text.
    pub fn parse(t: &str) -> (r: Option<ImageFormat>)
        ensures
            r == format_named(t@),
    {
        if text_eq(t, "png") {
            Some(ImageFormat::Png)
        } else if text_eq(t, "jpg") {
            Some(ImageFormat::Jpg)
        } else if text_eq(t, "webp") {
            Some(ImageFormat::Webp)
        } else {
            None
        }
    }

    /// The file extension of the format, without the dot.
    pub fn extension(&self) -> (r: String)
        ensures
            r@ == format_text(*self),
    {
        match self {
            ImageFormat::Png => String::from_str("png"),
            ImageFormat::Jpg => String::from_str("jpg"),
            ImageFormat::Webp => String::from_str("webp"),
        }
    }
}

/// Capture parameters as the caller gave them, each optional.
#[derive(Clone, Debug, PartialEq, Eq)]
pub struct RawArgs {
    pub target: Option<String>,
    pub output: Option<String>,
    pub width: Option<i64>,
    pub height: Option<i64>,
    pub sleep: Option<i64>,
    pub user_agent: Option<String>,
    pub format: Option<String>,
    pub debug: bool,
}

/// The input that a validation error is about.
#[derive(Clone, Copy, Debug, PartialEq, Eq, Structural)]
pub enum Field {
    Target,
    Width,
    Height,
    Sleep,
    Format,
}

/// Why an input was refused.
#[derive(Clone, Copy, Debug, PartialEq, Eq, Structural)]
pub enum Reason {
    Missing,
    Empty,
    NotPositive,
    Negative,
    Unsupported,
}

/// A refused input.
#[derive(Clone, Copy, Debug, PartialEq, Eq, Structural)]
pub struct ValidationError {
    pub field: Field,
    pub reason: Reason,
}

pub open spec fn field_text(f: Field) -> Seq<char> {
    match f {
        Field::Target => "target URL"@,
        Field::Width => "width"@,
        Field::Height => "height"@,
        Field::Sleep => "sleep duration"@,
        Field::Format => "format"@,
    }
}

pub open spec fn reason_text(r: Reason) -> Seq<char> {
    match r {
        Reason::Missing => " is required but missing"@,
        Reason::Empty => " is required but empty"@,
        Reason::NotPositive => " must be greater than zero"@,
        Reason::Negative => " must not be negative"@,
        Reason::Unsupported => " must be one of png, jpg, webp"@,
    }
}

impl ValidationError {
    /// A human-readable sentence naming the input and what is wrong with it.
    pub fn message(&self) -> (r: String)
        ensures
            r@ == field_text(self.field) + reason_text(self.reason),
    {
        let head = match self.field {
            Field::Target => String::from_str("target URL"),
            Field::Width => String::from_str("width"),
            Field::Height => String::from_str("height"),
            Field::Sleep => String::from_str("sleep duration"),
            Field::Format => String::from_str("format"),
        };
        match self.reason {
            Reason::Missing => head.concat(" is required but missing"),
            Reason::Empty => head.concat(" is required but empty"),
            Reason::NotPositive => head.concat(" must be greater than zero"),
            Reason::Negative => head.concat(" must not be negative"),
            Reason::Unsupported => head.concat(" must be one of png, jpg, webp"),
        }
    }
}

/// Validated, defaulted configuration of one capture.
#[derive(Clone, Debug, PartialEq, Eq)]
pub struct ParameterSet {
    pub url: String,
    pub output_path: Option<String>,
    pub width: u64,
    pub height: u64,
    pub user_agent: String,
    pub sleep_seconds: u64,
    pub format: ImageFormat,
    pub debug: bool,
}

impl ParameterSet {
    /// The invariant of a parameter set: a non-empty URL and a positive viewport.
    pub open spec fn wf(&self) -> bool {
        &&& self.url@.len() > 0
        &&& self.width > 0
        &&& self.height > 0
    }
}

pub open spec fn verr(field: Field, reason: Reason) -> ValidationError {
    ValidationError { field, reason }
}

/// The first input, in the order target, width, height, sleep, format, that breaks its rule.
pub open spec fn first_violation(raw: RawArgs) -> Option<ValidationError> {
    if raw.target is None {
        Some(verr(Field::Target, Reason::Missing))
    } else if raw.target.unwrap()@.len() == 0 {
        Some(verr(Field::Target, Reason::Empty))
    } else if raw.width is Some && raw.width.unwrap() <= 0 {
        Some(verr(Field::Width, Reason::NotPositive))
    } else if raw.height is Some && raw.height.unwrap() <= 0 {
        Some(verr(Field::Height, Reason::NotPositive))
    } else if raw.sleep is Some && raw.sleep.unwrap() < 0 {
        Some(verr(Field::Sleep, Reason::Negative))
    } else if raw.format is Some && format_named(raw.format.unwrap()@) is None {
        Some(verr(Field::Format, Reason::Unsupported))
    } else {
        None
    }
}

/// A given positive number, or the default.
pub open spec fn size_or(v: Option<i64>, default: u64) -> u64 {
    if v is Some {
        v.unwrap() as u64
    } else {
        default
    }
}

/// The parameter set that raw inputs without a violation stand for: every absent
/// input takes its default.
pub open spec fn built_from(p: ParameterSet, raw: RawArgs) -> bool {
    &&& p.url@ == raw.target.unwrap()@
    &&& p.output_path == raw.output
    &&& p.width == size_or(raw.width, DEFAULT_WIDTH)
    &&& p.height == size_or(raw.height, DEFAULT_HEIGHT)
    &&& p.sleep_seconds == size_or(raw.sleep, 0)
    &&& p.user_agent@ == (if raw.user_agent is Some {
        raw.user_agent.unwrap()@
    } else {
        DEFAULT_USER_AGENT@
    })
    &&& p.format == (if raw.format is Some {
        format_named(raw.format.unwrap()@).unwrap()
    } else {
        ImageFormat::Png
    })
    &&& p.debug == raw.debug
}

/// Validates raw inputs and fills in the defaults. Fails with the first violated rule.
pub fn build(raw: RawArgs) -> (r: Result<ParameterSet, ValidationError>)
    ensures
        match first_violation(raw) {
            Some(e) => r == Err::<ParameterSet, ValidationError>(e),
            None => r is Ok && r->Ok_0.wf() && built_from(r->Ok_0, raw),
        },
{
    let url = match raw.target {
        None => return Err(ValidationError { field: Field::Target, reason: Reason::Missing }),
        Some(t) => t,
    };
    if url.as_str().unicode_len() == 0 {
        return Err(ValidationError { field: Field::Target, reason: Reason::Empty });
    }
    let width: u64 = match raw.width {
        Some(w) => {
            if w <= 0 {
                return Err(ValidationError { field: Field::Width, reason: Reason::NotPositive });
            }
            w as u64
        },
        None => DEFAULT_WIDTH,
    };
    let height: u64 = match raw.height {
        Some(h) => {
            if h <= 0 {
                return Err(ValidationError { field: Field::Height, reason: Reason::NotPositive });
            }
            h as u64
        },
        None => DEFAULT_HEIGHT,
    };
    let sleep_seconds: u64 = match raw.sleep {
        Some(s) => {
            if s < 0 {
                return Err(ValidationError { field: Field::Sleep, reason: Reason::Negative });
            }
            s as u64
        },
        None => 0,
    };
    let format = match &raw.format {
        Some(f) => match ImageFormat::parse(f.as_str()) {
            Some(x) => x,
            None => return Err(ValidationError { field: Field::Format, reason: Reason::Unsupported }),
        },
        None => ImageFormat::Png,
    };
    let user_agent = match raw.user_agent {
        Some(u) => u,
        None => String::from_str(DEFAULT_USER_AGENT),
    };
    Ok(
        ParameterSet {
            url,
            output_path: raw.output,
            width,
            height,
            user_agent,
            sleep_seconds,
            format,
            debug: raw.debug,
        },
    )
}

/// Inputs that break no rule are always accepted: a non-empty target, a positive
/// width and height where given, a non-negative sleep where given, and a known
/// format where given.
pub proof fn lemma_valid_inputs_accepted(raw: RawArgs)
    requires
        raw.target is Some,
        raw.target.unwrap()@.len() > 0,
        raw.width is Some ==> raw.width.unwrap() > 0,
        raw.height is Some ==> raw.height.unwrap() > 0,
        raw.sleep is Some ==> raw.sleep.unwrap() >= 0,
        raw.format is Some ==> format_named(raw.format.unwrap()@) is Some,
    ensures
        first_violation(raw) is None,
{
}

/// Without a target, construction fails on the target, whatever else is given.
pub proof fn lemma_missing_target_refused(raw: RawArgs)
    requires
        raw.target is None,
    ensures
        first_violation(raw) == Some(verr(Field::Target, Reason::Missing)),
{
}

/// A format name outside png, jpg and webp is never accepted.
pub proof fn lemma_unknown_format_refused(raw: RawArgs)
    requires
        raw.format is Some,
        format_named(raw.format.unwrap()@) is None,
    ensures
        first_violation(raw) is Some,
{
}

} // verus!
