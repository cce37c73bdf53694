use crate::utils::str_eq;
use vstd::prelude::*;

verus! {

/// The four persisted display settings. The on-disk form is a flat JSON
/// object with one boolean per field.
#[derive(Clone, Copy, PartialEq, Eq, Structural, Debug)]
pub struct Options {
    pub four_k_mode: bool,
    pub borderless: bool,
    pub vsync: bool,
    pub fullscreen: bool,
}

/// The settings a fresh installation starts from: only vertical sync is on.
pub open spec fn default_options() -> Options {
    Options { four_k_mode: false, borderless: false, vsync: true, fullscreen: false }
}

impl Default for Options {
    fn default() -> (r: Options)
        ensures
            r == default_options(),
    {
        Options { four_k_mode: false, borderless: false, vsync: true, fullscreen: false }
    }
}

/// One of the four toggleable settings, as an action tag handed back by the
/// options menu instead of a loosely typed action string.
#[derive(Clone, Copy, PartialEq, Eq, Structural, Debug)]
pub enum OptionKey {
    FourKMode,
    Borderless,
    Vsync,
    Fullscreen,
}

impl OptionKey {
    /// The display name of the setting, which is also its key for
    /// `set_option` and `toggle_option`.
    pub open spec fn name_spec(self) -> Seq<char> {
        match self {
            OptionKey::FourKMode => "4K Mode"@,
            OptionKey::Borderless => "Borderless"@,
            OptionKey::Vsync => "V-sync"@,
            OptionKey::Fullscreen => "Fullscreen"@,
        }
    }

    pub fn name(self) -> (r: &'static str)
        ensures
            r@ == self.name_spec(),
    {
        match self {
            OptionKey::FourKMode => "4K Mode",
            OptionKey::Borderless => "Borderless",
            OptionKey::Vsync => "V-sync",
            OptionKey::Fullscreen => "Fullscreen",
        }
    }
}

/// The settings with the named field replaced; an unknown key changes
/// nothing.
pub open spec fn apply_option(o: Options, key: Seq<char>, value: bool) -> Options {
    if key == "4K Mode"@ {
        Options { four_k_mode: value, ..o }
    } else if key == "Borderless"@ {
        Options { borderless: value, ..o }
    } else if key == "V-sync"@ {
        Options { vsync: value, ..o }
    } else if key == "Fullscreen"@ {
        Options { fullscreen: value, ..o }
    } else {
        o
    }
}

/// The settings with the named field negated; an unknown key changes
/// nothing.
pub open spec fn toggled_option(o: Options, key: Seq<char>) -> Options {
    if key == "4K Mode"@ {
        Options { four_k_mode: !o.four_k_mode, ..o }
    } else if key == "Borderless"@ {
        Options { borderless: !o.borderless, ..o }
    } else if key == "V-sync"@ {
        Options { vsync: !o.vsync, ..o }
    } else if key == "Fullscreen"@ {
        Options { fullscreen: !o.fullscreen, ..o }
    } else {
        o
    }
}

/// Sets one setting by its display name ("4K Mode", "Borderless", "V-sync"
/// or "Fullscreen"); any other key is silently ignored. Writing the result
/// back to disk is the caller's business.
pub fn set_option(options: &mut Options, key: &str, value: bool)
    ensures
        *final(options) == apply_option(*old(options), key@, value),
{
    if str_eq(key, "4K Mode") {
        options.four_k_mode = value;
    } else if str_eq(key, "Borderless") {
        options.borderless = value;
    } else if str_eq(key, "V-sync") {
        options.vsync = value;
    } else if str_eq(key, "Fullscreen") {
        options.fullscreen = value;
    }
}

/// Negates one setting by its display name; any other key is silently
/// ignored.
pub fn toggle_option(options: &mut Options, key: &str)
    ensures
        *final(options) == toggled_option(*old(options), key@),
{
    let value: bool;
    if str_eq(key, "4K Mode") {
        value = options.four_k_mode;
    } else if str_eq(key, "Borderless") {
        value = options.borderless;
    } else if str_eq(key, "V-sync") {
        value = options.vsync;
    } else if str_eq(key, "Fullscreen") {
        value = options.fullscreen;
    } else {
        return ;
    }
    set_option(options, key, !value);
}

/// Whether the text is a well-formed JSON document.
pub uninterp spec fn json_accepts(s: Seq<char>) -> bool;

/// The boolean-valued members a JSON document holds at its top level, keyed
/// by member name, as a function of the document text.
pub uninterp spec fn json_bool_fields(s: Seq<char>) -> Map<Seq<char>, bool>;

/// The boolean-valued members a parsed JSON value holds at its top level: a
/// value that is not an object holds none.
pub uninterp spec fn json_bools(v: serde_json::Value) -> Map<Seq<char>, bool>;

#[verifier::external_type_specification]
#[verifier::external_body]
pub struct ExJsonValue(serde_json::Value);

/// Relies on `serde_json::from_str`: parsing succeeds exactly on well-formed
/// JSON text, and the parsed document is a function of the text alone.
#[verifier::external_body]
fn parse_json(s: &str) -> (r: Option<serde_json::Value>)
    ensures
        r is Some <==> json_accepts(s@),
        r is Some ==> json_bools(r.unwrap()) == json_bool_fields(s@),
{
    serde_json::from_str(s).ok()
}

/// Relies on `serde_json::Value::get` and `serde_json::Value::as_bool`: the
/// member under the key, if the document is an object holding a boolean
/// there, and nothing otherwise.
#[verifier::external_body]
fn json_bool_entry(doc: &serde_json::Value, key: &str) -> (r: Option<bool>)
    ensures
        r == if json_bools(*doc).dom().contains(key@) {
            Some(json_bools(*doc)[key@])
        } else {
            None::<bool>
        },
{
    match doc.get(key) {
        Some(v) => v.as_bool(),
        None => None,
    }
}

/// The value read for one settings key: the boolean stored under it, or
/// `false` when the member is missing or not a boolean.
pub open spec fn bool_field_or_false(s: Seq<char>, key: Seq<char>) -> bool {
    json_bool_fields(s).dom().contains(key) && json_bool_fields(s)[key]
}

/// Reads the settings out of the persisted JSON text. A key that is missing
/// or malformed defaults to `false` on its own; text that is not JSON at all
/// counts as no prior settings, so the defaults are returned.
pub fn options_from_json(s: &str) -> (r: Options)
    ensures
        json_accepts(s@) ==> r == (Options {
            four_k_mode: bool_field_or_false(s@, "four_k_mode"@),
            borderless: bool_field_or_false(s@, "borderless"@),
            vsync: bool_field_or_false(s@, "vsync"@),
            fullscreen: bool_field_or_false(s@, "fullscreen"@),
        }),
        !json_accepts(s@) ==> r == default_options(),
{
    match parse_json(s) {
        None => Options::default(),
        Some(doc) => {
            let four_k_mode = json_bool_entry(&doc, "four_k_mode").unwrap_or(false);
            let borderless = json_bool_entry(&doc, "borderless").unwrap_or(false);
            let vsync = json_bool_entry(&doc, "vsync").unwrap_or(false);
            let fullscreen = json_bool_entry(&doc, "fullscreen").unwrap_or(false);
            Options { four_k_mode, borderless, vsync, fullscreen }
        },
    }
}

/// The text of a boolean in the persisted document.
pub open spec fn bool_text(b: bool) -> Seq<char> {
    if b {
        "true"@
    } else {
        "false"@
    }
}

/// The persisted form of the settings.
pub open spec fn options_json_text(o: Options) -> Seq<char> {
    "\n        {\n            \"four_k_mode\": "@ + bool_text(o.four_k_mode)
        + ",\n            \"borderless\": "@ + bool_text(o.borderless)
        + ",\n            \"vsync\": "@ + bool_text(o.vsync) + ",\n            \"fullscreen\": "@
        + bool_text(o.fullscreen) + "\n        }"@
}

fn bool_str(b: bool) -> (r: &'static str)
    ensures
        r@ == bool_text(b),
{
    if b {
        "true"
    } else {
        "false"
    }
}

/// Renders the settings as the JSON document that `options_from_json` reads
/// back. Writing it to disk is the caller's business.
pub fn options_json(o: &Options) -> (r: String)
    ensures
        r@ == options_json_text(*o),
{
    let mut s = String::from_str("\n        {\n            \"four_k_mode\": ");
    s.append(bool_str(o.four_k_mode));
    s.append(",\n            \"borderless\": ");
    s.append(bool_str(o.borderless));
    s.append(",\n            \"vsync\": ");
    s.append(bool_str(o.vsync));
    s.append(",\n            \"fullscreen\": ");
    s.append(bool_str(o.fullscreen));
    s.append("\n        }");
    proof {
        assert(s@ =~= options_json_text(*o));
    }
    s
}

} // verus!
