//! Decoding a raw TOML document into an [`AppConfig`].
//!
//! An outside TOML parser turns the configuration text into a [`RawDoc`]: the
//! top-level table flattened to the shapes the schema can use (strings,
//! booleans, arrays of strings, and string-valued subtables). Everything from
//! there on is decoded here, with the two polymorphic tables (`before_run`
//! and `run`) treated as closed choices whose unknown keys are errors.

use toml::{Table, Value};
use vstd::prelude::*;
use vstd::string::StringExecFns;
use crate::pathstr::{ends_with_sep, spec_ends_with_sep};
use crate::schema::{AppConfig, AppConfigV, BeforeRun, BeforeRunV, Fallback, FallbackV, ParseError,
    ParseErrorV, Run, RunV, spec_parse_error_text};

verus! {

/// A top-level TOML value, flattened to what the schema can hold. An array
/// element or subtable value that is not a string is kept as `None`, so the
/// decoder can reject it by name; any other shape collapses to `Other`.
#[derive(Debug, Clone, PartialEq)]
pub enum RawVal {
    Str(String),
    Bool(bool),
    List(Vec<Option<String>>),
    Table(Vec<(String, Option<String>)>),
    Other,
}

/// Ghost image of [`RawVal`].
pub enum RawValV {
    Str(Seq<char>),
    Bool(bool),
    List(Seq<Option<Seq<char>>>),
    Table(Seq<(Seq<char>, Option<Seq<char>>)>),
    Other,
}

impl View for RawVal {
    type V = RawValV;

    open spec fn view(&self) -> RawValV {
        match self {
            RawVal::Str(s) => RawValV::Str(s@),
            RawVal::Bool(b) => RawValV::Bool(*b),
            RawVal::List(v) => RawValV::List(v.deep_view()),
            RawVal::Table(v) => RawValV::Table(v.deep_view()),
            RawVal::Other => RawValV::Other,
        }
    }
}

/// The top-level table of a TOML document, in the order the parser hands its
/// entries out.
#[derive(Debug, Clone, PartialEq)]
pub struct RawDoc {
    pub entries: Vec<(String, RawVal)>,
}

impl View for RawDoc {
    type V = Seq<(Seq<char>, RawValV)>;

    open spec fn view(&self) -> Seq<(Seq<char>, RawValV)> {
        Seq::new(self.entries@.len(), |i: int| (self.entries@[i].0@, self.entries@[i].1@))
    }
}

/// The first value bound to `key` in the document, if any.
pub open spec fn spec_lookup(doc: Seq<(Seq<char>, RawValV)>, key: Seq<char>) -> Option<RawValV>
    decreases doc.len(),
{
    if doc.len() == 0 {
        None
    } else if doc[0].0 == key {
        Some(doc[0].1)
    } else {
        spec_lookup(doc.drop_first(), key)
    }
}

/// Find the first entry named `key` in the document.
pub fn lookup<'a>(doc: &'a RawDoc, key: &String) -> (r: Option<&'a RawVal>)
    ensures
        match r {
            Some(v) => spec_lookup(doc@, key@) == Some(v@),
            None => spec_lookup(doc@, key@) is None,
        },
{
    let n = doc.entries.len();
    let mut i: usize = 0;
    proof {
        assert(doc@.skip(0) =~= doc@);
    }
    while i < n
        invariant
            i <= n,
            n == doc.entries@.len(),
            spec_lookup(doc@, key@) == spec_lookup(doc@.skip(i as int), key@),
        decreases n - i,
    {
        proof {
            assert(doc@.skip(i as int)[0] == doc@[i as int]);
            assert(doc@.skip(i as int).drop_first() =~= doc@.skip(i + 1));
        }
        if doc.entries[i].0 == *key {
            return Some(&doc.entries[i].1);
        }
        i = i + 1;
    }
    None
}

/// The first value bound to `key` in a string-valued subtable, if any.
pub open spec fn spec_lookup_str(
    entries: Seq<(Seq<char>, Option<Seq<char>>)>,
    key: Seq<char>,
) -> Option<Option<Seq<char>>>
    decreases entries.len(),
{
    if entries.len() == 0 {
        None
    } else if entries[0].0 == key {
        Some(entries[0].1)
    } else {
        spec_lookup_str(entries.drop_first(), key)
    }
}

/// Find the first entry named `key` in a string-valued subtable.
pub fn lookup_str<'a>(entries: &'a Vec<(String, Option<String>)>, key: &String) -> (r: Option<
    &'a Option<String>,
>)
    ensures
        match r {
            Some(v) => spec_lookup_str(entries.deep_view(), key@) == Some(v.deep_view()),
            None => spec_lookup_str(entries.deep_view(), key@) is None,
        },
{
    let n = entries.len();
    let mut i: usize = 0;
    proof {
        assert(entries.deep_view().skip(0) =~= entries.deep_view());
    }
    while i < n
        invariant
            i <= n,
            n == entries@.len(),
            spec_lookup_str(entries.deep_view(), key@) == spec_lookup_str(
                entries.deep_view().skip(i as int),
                key@,
            ),
        decreases n - i,
    {
        proof {
            assert(entries.deep_view().skip(i as int)[0] == entries.deep_view()[i as int]);
            assert(entries.deep_view().skip(i as int).drop_first() =~= entries.deep_view().skip(
                i + 1,
            ));
        }
        if entries[i].0 == *key {
            return Some(&entries[i].1);
        }
        i = i + 1;
    }
    None
}

/// The view of an optional fallback.
pub open spec fn opt_fallback_view(f: &Option<Fallback>) -> Option<FallbackV> {
    match f {
        Some(fb) => Some(fb@),
        None => None,
    }
}

/// The view of an optional borrowed raw value.
pub open spec fn opt_val_view(v: Option<&RawVal>) -> Option<RawValV> {
    match v {
        Some(x) => Some(x@),
        None => None,
    }
}

/// How the `required_files` value decodes: absent means the empty list, and
/// anything but an array of strings is an error.
pub open spec fn spec_required_files(v: Option<RawValV>) -> Result<Seq<Seq<char>>, ParseErrorV> {
    match v {
        None => Ok(Seq::empty()),
        Some(RawValV::List(items)) => if forall|i: int| 0 <= i < items.len() ==> items[i] is Some {
            Ok(Seq::new(items.len(), |i: int| items[i]->Some_0))
        } else {
            Err(ParseErrorV::RequiredFilesInvalid)
        },
        Some(_) => Err(ParseErrorV::RequiredFilesInvalid),
    }
}

/// Decode the `required_files` value.
pub fn decode_required_files(v: Option<&RawVal>) -> (r: Result<Vec<String>, ParseError>)
    ensures
        match r {
            Ok(files) => spec_required_files(opt_val_view(v)) == Ok::<_, ParseErrorV>(
                files.deep_view(),
            ),
            Err(e) => spec_required_files(opt_val_view(v)) == Err::<Seq<Seq<char>>, _>(e@),
        },
{
    match v {
        None => {
            let files: Vec<String> = Vec::new();
            proof {
                assert(files.deep_view() =~= Seq::<Seq<char>>::empty());
            }
            Ok(files)
        },
        Some(rv) => match rv {
            RawVal::List(items) => {
                let n = items.len();
                let mut files: Vec<String> = Vec::new();
                let mut i: usize = 0;
                while i < n
                    invariant
                        i <= n,
                        n == items@.len(),
                        files@.len() == i,
                        opt_val_view(v) == Some(RawValV::List(items.deep_view())),
                        forall|j: int| 0 <= j < i ==> items.deep_view()[j] is Some,
                        files.deep_view() =~= Seq::new(
                            i as nat,
                            |j: int| items.deep_view()[j]->Some_0,
                        ),
                    decreases n - i,
                {
                    let ghost prev = files.deep_view();
                    match &items[i] {
                        Some(s) => {
                            files.push(s.clone());
                            proof {
                                assert(items.deep_view()[i as int] == Some(s@));
                                assert(files@[i as int] == *s);
                                assert(files.deep_view() =~= prev.push(s@));
                            }
                        },
                        None => {
                            proof {
                                assert(items.deep_view()[i as int] is None);
                                assert(!(forall|j: int|
                                    0 <= j < items.deep_view().len()
                                        ==> items.deep_view()[j] is Some));
                            }
                            return Err(ParseError::RequiredFilesInvalid);
                        },
                    }
                    i = i + 1;
                    proof {
                        assert(files.deep_view() =~= Seq::new(
                            i as nat,
                            |j: int| items.deep_view()[j]->Some_0,
                        ));
                    }
                }
                proof {
                    assert(files.deep_view() =~= Seq::new(
                        items.deep_view().len(),
                        |j: int| items.deep_view()[j]->Some_0,
                    ));
                }
                Ok(files)
            },
            _ => Err(ParseError::RequiredFilesInvalid),
        },
    }
}

/// How the `before_run` value decodes: the table must be present, and its
/// first entry must bind `command` to a non-empty string or `script_path` to
/// a string; any other first key is an error naming that key.
pub open spec fn spec_before_run_field(v: Option<RawValV>) -> Result<BeforeRunV, ParseErrorV> {
    match v {
        None => Err(ParseErrorV::MissingBeforeRun),
        Some(RawValV::Table(entries)) => if entries.len() == 0 {
            Err(ParseErrorV::BeforeRunEmpty)
        } else {
            match entries[0].1 {
                Some(val) => if entries[0].0 == "command"@ {
                    if val.len() > 0 {
                        Ok(BeforeRunV::Command(val))
                    } else {
                        Err(ParseErrorV::CommandEmpty)
                    }
                } else if entries[0].0 == "script_path"@ {
                    Ok(BeforeRunV::ScriptPath(val))
                } else {
                    Err(ParseErrorV::BeforeRunUnknownKey(entries[0].0))
                },
                None => Err(ParseErrorV::BeforeRunValueNotString(entries[0].0)),
            }
        },
        Some(_) => Err(ParseErrorV::BeforeRunNotTable),
    }
}

/// Decode the `before_run` value.
pub fn decode_before_run(v: Option<&RawVal>) -> (r: Result<BeforeRun, ParseError>)
    ensures
        match r {
            Ok(b) => spec_before_run_field(opt_val_view(v)) == Ok::<_, ParseErrorV>(b@),
            Err(e) => spec_before_run_field(opt_val_view(v)) == Err::<BeforeRunV, _>(e@),
        },
{
    match v {
        None => Err(ParseError::MissingBeforeRun),
        Some(rv) => match rv {
            RawVal::Table(entries) => {
                if entries.len() == 0 {
                    return Err(ParseError::BeforeRunEmpty);
                }
                let key = &entries[0].0;
                proof {
                    assert(entries.deep_view()[0] == (entries@[0].0@, entries@[0].1.deep_view()));
                }
                let k_command = String::from_str("command");
                let k_script = String::from_str("script_path");
                match &entries[0].1 {
                    Some(val) => {
                        if *key == k_command {
                            if val.as_str().is_empty() {
                                Err(ParseError::CommandEmpty)
                            } else {
                                Ok(BeforeRun::Command(val.clone()))
                            }
                        } else if *key == k_script {
                            Ok(BeforeRun::ScriptPath(val.clone()))
                        } else {
                            Err(ParseError::BeforeRunUnknownKey(key.clone()))
                        }
                    },
                    None => Err(ParseError::BeforeRunValueNotString(key.clone())),
                }
            },
            _ => Err(ParseError::BeforeRunNotTable),
        },
    }
}

/// How the `run` value decodes: the table must be present, and its first
/// entry must bind `subcommand_of` to a string, or `path` to a string that a
/// trailing separator classifies as a folder and its absence as an
/// executable; any other first key is an error naming that key.
pub open spec fn spec_run_field(v: Option<RawValV>) -> Result<RunV, ParseErrorV> {
    match v {
        None => Err(ParseErrorV::MissingRun),
        Some(RawValV::Table(entries)) => if entries.len() == 0 {
            Err(ParseErrorV::RunEmpty)
        } else {
            match entries[0].1 {
                Some(val) => if entries[0].0 == "subcommand_of"@ {
                    Ok(RunV::SubcommandOf(val))
                } else if entries[0].0 == "path"@ {
                    if spec_ends_with_sep(val) {
                        Ok(RunV::PrependFolder(val))
                    } else {
                        Ok(RunV::Executable(val))
                    }
                } else {
                    Err(ParseErrorV::RunUnknownKey(entries[0].0))
                },
                None => Err(ParseErrorV::RunValueNotString(entries[0].0)),
            }
        },
        Some(_) => Err(ParseErrorV::RunNotTable),
    }
}

/// Decode the `run` value.
pub fn decode_run(v: Option<&RawVal>) -> (r: Result<Run, ParseError>)
    ensures
        match r {
            Ok(b) => spec_run_field(opt_val_view(v)) == Ok::<_, ParseErrorV>(b@),
            Err(e) => spec_run_field(opt_val_view(v)) == Err::<RunV, _>(e@),
        },
{
    match v {
        None => Err(ParseError::MissingRun),
        Some(rv) => match rv {
            RawVal::Table(entries) => {
                if entries.len() == 0 {
                    return Err(ParseError::RunEmpty);
                }
                let key = &entries[0].0;
                proof {
                    assert(entries.deep_view()[0] == (entries@[0].0@, entries@[0].1.deep_view()));
                }
                let k_sub = String::from_str("subcommand_of");
                let k_path = String::from_str("path");
                match &entries[0].1 {
                    Some(val) => {
                        if *key == k_sub {
                            Ok(Run::SubcommandOf(val.clone()))
                        } else if *key == k_path {
                            if ends_with_sep(val.as_str()) {
                                Ok(Run::PrependFolder(val.clone()))
                            } else {
                                Ok(Run::Executable(val.clone()))
                            }
                        } else {
                            Err(ParseError::RunUnknownKey(key.clone()))
                        }
                    },
                    None => Err(ParseError::RunValueNotString(key.clone())),
                }
            },
            _ => Err(ParseError::RunNotTable),
        },
    }
}

/// How the `fallback` value decodes: absent means no fallback; a table's
/// `path` entry, when present, must be a string; other keys are ignored.
pub open spec fn spec_fallback_field(v: Option<RawValV>) -> Result<
    Option<FallbackV>,
    ParseErrorV,
> {
    match v {
        None => Ok(None),
        Some(RawValV::Table(entries)) => match spec_lookup_str(entries, "path"@) {
            None => Ok(Some(FallbackV { path: None })),
            Some(Some(s)) => Ok(Some(FallbackV { path: Some(s) })),
            Some(None) => Err(ParseErrorV::FallbackInvalid),
        },
        Some(_) => Err(ParseErrorV::FallbackInvalid),
    }
}

/// Decode the `fallback` value.
pub fn decode_fallback(v: Option<&RawVal>) -> (r: Result<Option<Fallback>, ParseError>)
    ensures
        match r {
            Ok(f) => spec_fallback_field(opt_val_view(v)) == Ok::<_, ParseErrorV>(
                opt_fallback_view(&f),
            ),
            Err(e) => spec_fallback_field(opt_val_view(v)) == Err::<Option<FallbackV>, _>(e@),
        },
{
    match v {
        None => Ok(None),
        Some(rv) => match rv {
            RawVal::Table(entries) => match lookup_str(entries, &String::from_str("path")) {
                None => Ok(Some(Fallback { path: None })),
                Some(opt) => match opt {
                    Some(s) => Ok(Some(Fallback { path: Some(s.clone()) })),
                    None => Err(ParseError::FallbackInvalid),
                },
            },
            _ => Err(ParseError::FallbackInvalid),
        },
    }
}

/// How the `search_parents` value decodes: absent means `false`, and anything
/// but a boolean is an error.
pub open spec fn spec_search_parents(v: Option<RawValV>) -> Result<bool, ParseErrorV> {
    match v {
        None => Ok(false),
        Some(RawValV::Bool(b)) => Ok(b),
        Some(_) => Err(ParseErrorV::SearchParentsInvalid),
    }
}

/// Decode the `search_parents` value.
pub fn decode_search_parents(v: Option<&RawVal>) -> (r: Result<bool, ParseError>)
    ensures
        match r {
            Ok(b) => spec_search_parents(opt_val_view(v)) == Ok::<_, ParseErrorV>(b),
            Err(e) => spec_search_parents(opt_val_view(v)) == Err::<bool, _>(e@),
        },
{
    match v {
        None => Ok(false),
        Some(rv) => match rv {
            RawVal::Bool(b) => Ok(*b),
            _ => Err(ParseError::SearchParentsInvalid),
        },
    }
}

/// How a whole raw document decodes: each field in turn, the first faulty
/// field's error deciding the outcome. Top-level keys other than the five of
/// the schema are ignored.
pub open spec fn spec_parse_config(doc: Seq<(Seq<char>, RawValV)>) -> Result<
    AppConfigV,
    ParseErrorV,
> {
    match spec_required_files(spec_lookup(doc, "required_files"@)) {
        Err(e) => Err(e),
        Ok(rf) => match spec_search_parents(spec_lookup(doc, "search_parents"@)) {
            Err(e) => Err(e),
            Ok(sp) => match spec_before_run_field(spec_lookup(doc, "before_run"@)) {
                Err(e) => Err(e),
                Ok(br) => match spec_run_field(spec_lookup(doc, "run"@)) {
                    Err(e) => Err(e),
                    Ok(rn) => match spec_fallback_field(spec_lookup(doc, "fallback"@)) {
                        Err(e) => Err(e),
                        Ok(fb) => Ok(
                            AppConfigV {
                                required_files: rf,
                                search_parents: sp,
                                before_run: br,
                                run: rn,
                                fallback: fb,
                            },
                        ),
                    },
                },
            },
        },
    }
}

/// Decode a raw TOML document into a configuration.
pub fn parse_config(doc: &RawDoc) -> (r: Result<AppConfig, ParseError>)
    ensures
        match r {
            Ok(cfg) => spec_parse_config(doc@) == Ok::<_, ParseErrorV>(cfg@),
            Err(e) => spec_parse_config(doc@) == Err::<AppConfigV, _>(e@),
        },
{
    let rf = match decode_required_files(lookup(doc, &String::from_str("required_files"))) {
        Ok(x) => x,
        Err(e) => {
            return Err(e);
        },
    };
    let sp = match decode_search_parents(lookup(doc, &String::from_str("search_parents"))) {
        Ok(x) => x,
        Err(e) => {
            return Err(e);
        },
    };
    let br = match decode_before_run(lookup(doc, &String::from_str("before_run"))) {
        Ok(x) => x,
        Err(e) => {
            return Err(e);
        },
    };
    let rn = match decode_run(lookup(doc, &String::from_str("run"))) {
        Ok(x) => x,
        Err(e) => {
            return Err(e);
        },
    };
    let fb = match decode_fallback(lookup(doc, &String::from_str("fallback"))) {
        Ok(x) => x,
        Err(e) => {
            return Err(e);
        },
    };
    Ok(
        AppConfig {
            required_files: rf,
            search_parents: sp,
            before_run: br,
            run: rn,
            fallback: fb,
        },
    )
}

/// What the TOML parser yields for a given text: the top-level table,
/// flattened entry by entry into raw values, or nothing when the text is not
/// well-formed TOML. Parsing is deterministic and the table hands its
/// entries out in lexicographic key order, so this is a function of the text
/// alone.
pub uninterp spec fn toml_doc(text: Seq<char>) -> Option<Seq<(Seq<char>, RawValV)>>;

/// Relies on toml::from_str::<toml::Table>: it parses TOML text into the
/// top-level table or fails on malformed text, and the table's iterator
/// hands the entries out in lexicographic key order. Each value is told
/// apart by variant and moved into the matching [`RawVal`] shape; array
/// elements and subtable values keep only their strings.
#[verifier::external_body]
fn parse_toml_text(text: &str) -> (r: Result<RawDoc, String>)
    ensures
        match r {
            Ok(d) => toml_doc(text@) == Some(d@),
            Err(_) => toml_doc(text@) is None,
        },
{
    let flat = |w: Value| match w {
        Value::String(s) => Some(s),
        _ => None,
    };
    match toml::from_str::<Table>(text) {
        Err(e) => Err(e.to_string()),
        Ok(t) => Ok(RawDoc { entries: t.into_iter().map(|(k, v)| (k, match v {
            Value::String(s) => RawVal::Str(s),
            Value::Boolean(b) => RawVal::Bool(b),
            Value::Array(a) => RawVal::List(a.into_iter().map(flat).collect()),
            Value::Table(t2) => RawVal::Table(t2.into_iter().map(|(c, w)| (c, flat(w))).collect()),
            _ => RawVal::Other,
        })).collect() }),
    }
}

/// Parse configuration text: TOML first, then the schema decode.
pub fn load_config(text: &str) -> (r: Result<AppConfig, ParseError>)
    ensures
        match toml_doc(text@) {
            None => r matches Err(e) && e@ matches ParseErrorV::Syntax(_),
            Some(d) => match r {
                Ok(cfg) => spec_parse_config(d) == Ok::<_, ParseErrorV>(cfg@),
                Err(e) => spec_parse_config(d) == Err::<AppConfigV, _>(e@),
            },
        },
{
    match parse_toml_text(text) {
        Err(msg) => Err(ParseError::Syntax(msg)),
        Ok(doc) => parse_config(&doc),
    }
}

/// Law: the classification of a `run.path` value is total and
/// deterministic: a trailing separator always yields the folder form, and
/// its absence always the executable form, for every string value.
pub proof fn lemma_run_path_classification(val: Seq<char>)
    ensures
        spec_ends_with_sep(val) ==> spec_run_field(
            Some(RawValV::Table(seq![("path"@, Some(val))])),
        ) == Ok::<RunV, ParseErrorV>(RunV::PrependFolder(val)),
        !spec_ends_with_sep(val) ==> spec_run_field(
            Some(RawValV::Table(seq![("path"@, Some(val))])),
        ) == Ok::<RunV, ParseErrorV>(RunV::Executable(val)),
{
    reveal_strlit("path");
    reveal_strlit("subcommand_of");
    assert("path"@.len() == 4);
    assert("subcommand_of"@.len() == 13);
}

/// Law: a `before_run` table whose first key is neither `command` nor
/// `script_path` always fails the parse, with an error that carries that
/// key — it is never silently ignored — and whose description writes the
/// key out between the two accepted alternatives.
pub proof fn lemma_before_run_unknown_key(entries: Seq<(Seq<char>, Option<Seq<char>>)>)
    requires
        entries.len() > 0,
        entries[0].0 != "command"@,
        entries[0].0 != "script_path"@,
        entries[0].1 is Some,
    ensures
        spec_before_run_field(Some(RawValV::Table(entries))) == Err::<BeforeRunV, ParseErrorV>(
            ParseErrorV::BeforeRunUnknownKey(entries[0].0),
        ),
        spec_parse_error_text(ParseErrorV::BeforeRunUnknownKey(entries[0].0))
            == "unrecognised key \""@ + entries[0].0
            + "\", expected \"command\" or \"script_path\""@,
{
}

/// Law: a `run` table whose first key is neither `subcommand_of` nor
/// `path` always fails the parse, with an error that carries that key — it
/// is never silently ignored — and whose description writes the key out
/// between the two accepted alternatives.
pub proof fn lemma_run_unknown_key(entries: Seq<(Seq<char>, Option<Seq<char>>)>)
    requires
        entries.len() > 0,
        entries[0].0 != "subcommand_of"@,
        entries[0].0 != "path"@,
        entries[0].1 is Some,
    ensures
        spec_run_field(Some(RawValV::Table(entries))) == Err::<RunV, ParseErrorV>(
            ParseErrorV::RunUnknownKey(entries[0].0),
        ),
        spec_parse_error_text(ParseErrorV::RunUnknownKey(entries[0].0))
            == "unrecognised key \""@ + entries[0].0
            + "\", expected \"subcommand_of\" or \"path\""@,
{
}

} // verus!
