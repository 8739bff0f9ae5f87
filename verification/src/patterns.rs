//! The pattern library: a fixed registry of named regular expressions, each
//! compiled once when the library is built and only read afterwards.

use vstd::prelude::*;
use regex::Regex;
use crate::text::{contains_text, has_substring, lowercased, same_text, to_lowercase};

verus! {

/// A compiled regular expression of the `regex` crate. Nothing inside it is
/// visible here.
#[verifier::external_type_specification]
#[verifier::external_body]
pub struct ExRegex(regex::Regex);

/// The error of the `regex` crate for a pattern that does not compile.
#[verifier::external_type_specification]
#[verifier::external_body]
pub struct ExRegexError(regex::Error);

/// What `Regex::new` returns for a pattern: the compiled expression, or the
/// error for a pattern that is malformed or compiles to more than the
/// crate's size limit.
pub uninterp spec fn regex_new(pattern: Seq<char>) -> Result<Regex, regex::Error>;

/// What `Regex::is_match` returns: whether the expression matches anywhere
/// in the text.
pub uninterp spec fn regex_is_match(re: Regex, text: Seq<char>) -> bool;

/// The pattern compiles.
pub open spec fn pattern_compiles(pattern: Seq<char>) -> bool {
    regex_new(pattern) is Ok
}

/// The pattern compiles and matches somewhere in the text.
pub open spec fn pattern_matches(pattern: Seq<char>, text: Seq<char>) -> bool {
    regex_new(pattern) matches Ok(re) && regex_is_match(re, text)
}

/// Calls `Regex::new`, which compiles a pattern with the crate's default
/// options and never panics. The result depends on the pattern alone; the
/// contract gives it its name and claims nothing else.
#[verifier::external_body]
fn compile_pattern(pattern: &str) -> (r: Result<Regex, regex::Error>)
    ensures
        r == regex_new(pattern@),
{
    Regex::new(pattern)
}

/// Calls `Regex::is_match`, which searches the whole text for a match. The
/// result depends on the expression and the text alone; the contract gives
/// it its name and claims nothing else.
#[verifier::external_body]
fn pattern_is_match(re: &Regex, text: &str) -> (r: bool)
    ensures
        r == regex_is_match(*re, text@),
{
    re.is_match(text)
}

/// A post-office box, spelled `PO Box`, `P.O. Box`, `P O Box` or
/// `Post Office Box`, in any case, as a word of its own.
pub const PO_BOX_SOURCE: &'static str = r"(?i)\b(p\.?\s*o\.?\s*box|post\s*office\s*box)\b";

/// A whole postcode of the United Kingdom, such as `SW1A 1AA` or `SW1A1AA`.
pub const UK_POSTCODE_SOURCE: &'static str = r"(?i)^[A-Z]{1,2}\d[A-Z\d]?\s*\d[A-Z]{2}$";

/// A whole ZIP code of the United States, such as `90210` or `90210-1234`.
pub const US_ZIP_SOURCE: &'static str = r"^\d{5}(-\d{4})?$";

/// A whole Canadian postal code, such as `K1A 0B1` or `K1A0B1`.
pub const CA_POSTAL_SOURCE: &'static str = r"(?i)^[A-Z]\d[A-Z]\s*\d[A-Z]\d$";

/// The bare shape of an e-mail address: no spaces, one `@`, and a dot
/// after it.
pub const EMAIL_BASIC_SOURCE: &'static str = r"^[^\s@]+@[^\s@]+\.[^\s@]+$";

/// A whole telephone number of the United States, such as
/// `(555) 123-4567`, `555-123-4567`, `5551234567` or `+1 555 123 4567`.
pub const US_PHONE_SOURCE: &'static str = r"^(\+1[-.\s]?)?(\(?\d{3}\)?[-.\s]?)?\d{3}[-.\s]?\d{4}$";

/// A word of the blocklist, in any case, as a word of its own.
pub const PROFANITY_SOURCE: &'static str = r"(?i)\b(badword1|badword2|offensive)\b";

/// A text of digits only, at least one.
pub const NUMERIC_ONLY_SOURCE: &'static str = r"^\d+$";

/// A bracket, a brace, a pipe, a backslash, a caret, a tilde or a backtick
/// anywhere in the text.
pub const SUSPICIOUS_CHARS_SOURCE: &'static str = r"[<>{}|\\^~\[\]`]";

/// The patterns that ship with the engine.
#[derive(Debug, Clone, Copy, PartialEq, Eq, Structural)]
pub enum PresetPattern {
    /// A post-office box in an address line.
    PoBox,
    /// A postcode of the United Kingdom, with or without the space.
    UkPostcode,
    /// A ZIP code of the United States, five digits or ZIP+4.
    UsZip,
    /// A Canadian postal code, with or without the space.
    CaPostal,
    /// Something of the shape `local@domain.tld`.
    EmailBasic,
    /// A telephone number of the United States.
    UsPhone,
    /// A word of the blocklist.
    Profanity,
    /// Digits only.
    NumericOnly,
    /// A character that has no place in a name or an address.
    SuspiciousChars,
}

impl PresetPattern {
    /// The name by which a condition refers to the preset.
    pub open spec fn spec_name(self) -> Seq<char> {
        match self {
            PresetPattern::PoBox => "po_box"@,
            PresetPattern::UkPostcode => "uk_postcode"@,
            PresetPattern::UsZip => "us_zip"@,
            PresetPattern::CaPostal => "ca_postal"@,
            PresetPattern::EmailBasic => "email_basic"@,
            PresetPattern::UsPhone => "us_phone"@,
            PresetPattern::Profanity => "profanity"@,
            PresetPattern::NumericOnly => "numeric_only"@,
            PresetPattern::SuspiciousChars => "suspicious_chars"@,
        }
    }

    /// The regular expression of the preset.
    pub open spec fn spec_source(self) -> Seq<char> {
        match self {
            PresetPattern::PoBox => PO_BOX_SOURCE@,
            PresetPattern::UkPostcode => UK_POSTCODE_SOURCE@,
            PresetPattern::UsZip => US_ZIP_SOURCE@,
            PresetPattern::CaPostal => CA_POSTAL_SOURCE@,
            PresetPattern::EmailBasic => EMAIL_BASIC_SOURCE@,
            PresetPattern::UsPhone => US_PHONE_SOURCE@,
            PresetPattern::Profanity => PROFANITY_SOURCE@,
            PresetPattern::NumericOnly => NUMERIC_ONLY_SOURCE@,
            PresetPattern::SuspiciousChars => SUSPICIOUS_CHARS_SOURCE@,
        }
    }

    /// The place of the preset in the registry, from zero.
    pub open spec fn spec_index(self) -> nat {
        match self {
            PresetPattern::PoBox => 0,
            PresetPattern::UkPostcode => 1,
            PresetPattern::UsZip => 2,
            PresetPattern::CaPostal => 3,
            PresetPattern::EmailBasic => 4,
            PresetPattern::UsPhone => 5,
            PresetPattern::Profanity => 6,
            PresetPattern::NumericOnly => 7,
            PresetPattern::SuspiciousChars => 8,
        }
    }

    /// The name by which a condition refers to the preset.
    pub fn name(self) -> (r: &'static str)
        ensures
            r@ == self.spec_name(),
    {
        match self {
            PresetPattern::PoBox => "po_box",
            PresetPattern::UkPostcode => "uk_postcode",
            PresetPattern::UsZip => "us_zip",
            PresetPattern::CaPostal => "ca_postal",
            PresetPattern::EmailBasic => "email_basic",
            PresetPattern::UsPhone => "us_phone",
            PresetPattern::Profanity => "profanity",
            PresetPattern::NumericOnly => "numeric_only",
            PresetPattern::SuspiciousChars => "suspicious_chars",
        }
    }

    /// The regular expression of the preset.
    pub fn source(self) -> (r: &'static str)
        ensures
            r@ == self.spec_source(),
    {
        match self {
            PresetPattern::PoBox => PO_BOX_SOURCE,
            PresetPattern::UkPostcode => UK_POSTCODE_SOURCE,
            PresetPattern::UsZip => US_ZIP_SOURCE,
            PresetPattern::CaPostal => CA_POSTAL_SOURCE,
            PresetPattern::EmailBasic => EMAIL_BASIC_SOURCE,
            PresetPattern::UsPhone => US_PHONE_SOURCE,
            PresetPattern::Profanity => PROFANITY_SOURCE,
            PresetPattern::NumericOnly => NUMERIC_ONLY_SOURCE,
            PresetPattern::SuspiciousChars => SUSPICIOUS_CHARS_SOURCE,
        }
    }

    /// The preset of that name, if there is one. Names are matched exactly.
    pub fn from_name(name: &str) -> (r: Option<PresetPattern>)
        ensures
            r == preset_named(name@),
    {
        if same_text(name, "po_box") {
            Some(PresetPattern::PoBox)
        } else if same_text(name, "uk_postcode") {
            Some(PresetPattern::UkPostcode)
        } else if same_text(name, "us_zip") {
            Some(PresetPattern::UsZip)
        } else if same_text(name, "ca_postal") {
            Some(PresetPattern::CaPostal)
        } else if same_text(name, "email_basic") {
            Some(PresetPattern::EmailBasic)
        } else if same_text(name, "us_phone") {
            Some(PresetPattern::UsPhone)
        } else if same_text(name, "profanity") {
            Some(PresetPattern::Profanity)
        } else if same_text(name, "numeric_only") {
            Some(PresetPattern::NumericOnly)
        } else if same_text(name, "suspicious_chars") {
            Some(PresetPattern::SuspiciousChars)
        } else {
            None
        }
    }
}

/// The preset that a name refers to; none for any other text.
pub open spec fn preset_named(name: Seq<char>) -> Option<PresetPattern> {
    if name == "po_box"@ {
        Some(PresetPattern::PoBox)
    } else if name == "uk_postcode"@ {
        Some(PresetPattern::UkPostcode)
    } else if name == "us_zip"@ {
        Some(PresetPattern::UsZip)
    } else if name == "ca_postal"@ {
        Some(PresetPattern::CaPostal)
    } else if name == "email_basic"@ {
        Some(PresetPattern::EmailBasic)
    } else if name == "us_phone"@ {
        Some(PresetPattern::UsPhone)
    } else if name == "profanity"@ {
        Some(PresetPattern::Profanity)
    } else if name == "numeric_only"@ {
        Some(PresetPattern::NumericOnly)
    } else if name == "suspicious_chars"@ {
        Some(PresetPattern::SuspiciousChars)
    } else {
        None
    }
}

/// The text matches the preset of that name. No text matches under a name
/// that refers to no preset.
pub open spec fn preset_matches(name: Seq<char>, text: Seq<char>) -> bool {
    match preset_named(name) {
        Some(preset) => pattern_matches(preset.spec_source(), text),
        None => false,
    }
}

/// Why the library could not be built.
#[derive(Debug, Clone, Copy, PartialEq, Eq, Structural)]
pub enum PatternError {
    /// The regular expression of this preset does not compile.
    Invalid(PresetPattern),
}

/// The compiled presets. A library is built once and never changes: there is
/// no operation that adds, removes or recompiles an entry.
pub struct PatternLibrary {
    po_box: Regex,
    uk_postcode: Regex,
    us_zip: Regex,
    ca_postal: Regex,
    email_basic: Regex,
    us_phone: Regex,
    profanity: Regex,
    numeric_only: Regex,
    suspicious_chars: Regex,
}

impl PatternLibrary {
    /// The compiled expression that the library holds for a preset.
    pub closed spec fn entry(self, preset: PresetPattern) -> Regex {
        match preset {
            PresetPattern::PoBox => self.po_box,
            PresetPattern::UkPostcode => self.uk_postcode,
            PresetPattern::UsZip => self.us_zip,
            PresetPattern::CaPostal => self.ca_postal,
            PresetPattern::EmailBasic => self.email_basic,
            PresetPattern::UsPhone => self.us_phone,
            PresetPattern::Profanity => self.profanity,
            PresetPattern::NumericOnly => self.numeric_only,
            PresetPattern::SuspiciousChars => self.suspicious_chars,
        }
    }

    /// Every entry is what its preset's expression compiles to.
    #[verifier::type_invariant]
    closed spec fn well_formed(self) -> bool {
        forall|preset: PresetPattern|
            regex_new(preset.spec_source()) == Ok::<Regex, regex::Error>(
                #[trigger] self.entry(preset),
            )
    }

    /// Builds the library, compiling each preset once, in registry order.
    /// It fails on the first preset whose expression does not compile.
    pub fn new() -> (r: Result<PatternLibrary, PatternError>)
        ensures
            r is Ok <==> forall|preset: PresetPattern|
                pattern_compiles(#[trigger] preset.spec_source()),
            match r {
                Ok(library) => forall|preset: PresetPattern|
                    regex_new(preset.spec_source()) == Ok::<Regex, regex::Error>(
                        #[trigger] library.entry(preset),
                    ),
                Err(PatternError::Invalid(failed)) => {
                    &&& !pattern_compiles(failed.spec_source())
                    &&& forall|preset: PresetPattern|
                        preset.spec_index() < failed.spec_index() ==> pattern_compiles(
                            #[trigger] preset.spec_source(),
                        )
                },
            },
    {
        let po_box = match compile_preset(PresetPattern::PoBox) {
            Ok(re) => re,
            Err(e) => { return Err(e); },
        };
        let uk_postcode = match compile_preset(PresetPattern::UkPostcode) {
            Ok(re) => re,
            Err(e) => { return Err(e); },
        };
        let us_zip = match compile_preset(PresetPattern::UsZip) {
            Ok(re) => re,
            Err(e) => { return Err(e); },
        };
        let ca_postal = match compile_preset(PresetPattern::CaPostal) {
            Ok(re) => re,
            Err(e) => { return Err(e); },
        };
        let email_basic = match compile_preset(PresetPattern::EmailBasic) {
            Ok(re) => re,
            Err(e) => { return Err(e); },
        };
        let us_phone = match compile_preset(PresetPattern::UsPhone) {
            Ok(re) => re,
            Err(e) => { return Err(e); },
        };
        let profanity = match compile_preset(PresetPattern::Profanity) {
            Ok(re) => re,
            Err(e) => { return Err(e); },
        };
        let numeric_only = match compile_preset(PresetPattern::NumericOnly) {
            Ok(re) => re,
            Err(e) => { return Err(e); },
        };
        let suspicious_chars = match compile_preset(PresetPattern::SuspiciousChars) {
            Ok(re) => re,
            Err(e) => { return Err(e); },
        };
        Ok(
            PatternLibrary {
                po_box,
                uk_postcode,
                us_zip,
                ca_postal,
                email_basic,
                us_phone,
                profanity,
                numeric_only,
                suspicious_chars,
            },
        )
    }

    /// The compiled expression of a preset.
    pub fn regex(&self, preset: PresetPattern) -> (re: &Regex)
        ensures
            regex_new(preset.spec_source()) == Ok::<Regex, regex::Error>(*re),
    {
        proof {
            use_type_invariant(self);
            assert(regex_new(preset.spec_source()) == Ok::<Regex, regex::Error>(
                self.entry(preset),
            ));
        }
        match preset {
            PresetPattern::PoBox => &self.po_box,
            PresetPattern::UkPostcode => &self.uk_postcode,
            PresetPattern::UsZip => &self.us_zip,
            PresetPattern::CaPostal => &self.ca_postal,
            PresetPattern::EmailBasic => &self.email_basic,
            PresetPattern::UsPhone => &self.us_phone,
            PresetPattern::Profanity => &self.profanity,
            PresetPattern::NumericOnly => &self.numeric_only,
            PresetPattern::SuspiciousChars => &self.suspicious_chars,
        }
    }

    /// The compiled expression registered under a name; `None` for a name
    /// that refers to no preset.
    pub fn get(&self, name: &str) -> (r: Option<&Regex>)
        ensures
            match r {
                Some(re) => preset_named(name@) matches Some(preset) && regex_new(
                    preset.spec_source(),
                ) == Ok::<Regex, regex::Error>(*re),
                None => preset_named(name@) is None,
            },
    {
        match PresetPattern::from_name(name) {
            Some(preset) => Some(self.regex(preset)),
            None => None,
        }
    }

    /// Whether the text matches a preset.
    pub fn is_match(&self, preset: PresetPattern, text: &str) -> (r: bool)
        ensures
            r == pattern_matches(preset.spec_source(), text@),
    {
        pattern_is_match(self.regex(preset), text)
    }
}

/// Compiles the expression of one preset.
fn compile_preset(preset: PresetPattern) -> (r: Result<Regex, PatternError>)
    ensures
        match r {
            Ok(re) => regex_new(preset.spec_source()) == Ok::<Regex, regex::Error>(re),
            Err(e) => e == PatternError::Invalid(preset) && !pattern_compiles(
                preset.spec_source(),
            ),
        },
{
    match compile_pattern(preset.source()) {
        Ok(re) => Ok(re),
        Err(_) => Err(PatternError::Invalid(preset)),
    }
}

/// Whether the text matches a pattern that is spelled out. A pattern that
/// does not compile matches nothing.
pub fn matches_pattern(pattern: &str, text: &str) -> (r: bool)
    ensures
        r == pattern_matches(pattern@, text@),
{
    match compile_pattern(pattern) {
        Ok(re) => pattern_is_match(&re, text),
        Err(_) => false,
    }
}

/// The compiled expression registered under a name.
pub fn get_preset_pattern<'a>(library: &'a PatternLibrary, name: &str) -> (r: Option<&'a Regex>)
    ensures
        match r {
            Some(re) => preset_named(name@) matches Some(preset) && regex_new(
                preset.spec_source(),
            ) == Ok::<Regex, regex::Error>(*re),
            None => preset_named(name@) is None,
        },
{
    library.get(name)
}

/// The names of all presets, in registry order.
pub fn list_preset_patterns() -> (names: Vec<&'static str>)
    ensures
        names@.len() == 9,
        forall|preset: PresetPattern| #[trigger]
            names@[preset.spec_index() as int]@ == preset.spec_name(),
{
    let mut names: Vec<&'static str> = Vec::new();
    names.push(PresetPattern::PoBox.name());
    names.push(PresetPattern::UkPostcode.name());
    names.push(PresetPattern::UsZip.name());
    names.push(PresetPattern::CaPostal.name());
    names.push(PresetPattern::EmailBasic.name());
    names.push(PresetPattern::UsPhone.name());
    names.push(PresetPattern::Profanity.name());
    names.push(PresetPattern::NumericOnly.name());
    names.push(PresetPattern::SuspiciousChars.name());
    names
}

/// A text that, once lowercased, spells out a post-office box.
pub open spec fn mentions_po_box(text: Seq<char>) -> bool {
    let lower = lowercased(text);
    ||| has_substring(lower, "po box"@)
    ||| has_substring(lower, "p.o. box"@)
    ||| has_substring(lower, "p o box"@)
    ||| has_substring(lower, "post office box"@)
}

/// Whether the text names a post-office box, by substring tests alone.
pub fn is_po_box(text: &str) -> (r: bool)
    ensures
        r == mentions_po_box(text@),
{
    let lower = to_lowercase(text);
    contains_text(lower.as_str(), "po box") || contains_text(lower.as_str(), "p.o. box")
        || contains_text(lower.as_str(), "p o box") || contains_text(
        lower.as_str(),
        "post office box",
    )
}

/// The preset check that needs no regular expression: `po_box` is the one
/// name it knows, and under any other name nothing matches.
pub fn check_preset(name: &str, text: &str) -> (r: bool)
    ensures
        r == (name@ == "po_box"@ && mentions_po_box(text@)),
{
    if same_text(name, "po_box") {
        is_po_box(text)
    } else {
        false
    }
}

} // verus!
