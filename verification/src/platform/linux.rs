//! Linux browser detection over XDG desktop-descriptor files.
//!
//! A candidate browser is a `.desktop` file: an INI-like descriptor whose
//! `[Desktop Entry]` section names the application and its command line. An
//! entry counts as a browser when it declares an HTTP handler MIME type or
//! the `WebBrowser` category. The desktop id (the file basename without its
//! extension) is matched against the known-browser registry for enrichment.

use vstd::prelude::*;
use vstd::string::StrSliceExecFns;
use vstd::string::StringExecFns;

use crate::browser::browsers_model;
use crate::browser::Browser;
use crate::browser::BrowserModel;
use crate::registry::find_by_desktop_id;
use crate::registry::find_by_id;
use crate::registry::seq_contains_str;
use crate::registry::spec_find_by_desktop_id;
use crate::registry::spec_find_by_id;
use crate::text::ends_with_str;
use crate::variant::BrowserFamily;
use crate::variant::BrowserVariant;
use crate::text::contains_char;
use crate::text::find_char;
use crate::text::find_from;
use crate::text::first_char_is;
use crate::text::is_digit;
use crate::text::is_digit_char;
use crate::text::split_char;
use crate::text::split_from;
use crate::text::split_ws;
use crate::text::str_eq;
use crate::text::trim_spec;
use crate::text::trim_str;
use crate::text::ws_tokens;

verus! {

/// The mathematical value of a [`DesktopEntry`].
#[verifier::ext_equal]
pub struct EntryModel {
    /// The `Name` value, if one was read.
    pub name: Option<Seq<char>>,
    /// The `Exec` value, if one was read.
    pub exec_cmd: Option<Seq<char>>,
    /// The `MimeType` list entries, empty entries dropped.
    pub mime_types: Seq<Seq<char>>,
    /// The `Categories` list entries, empty entries dropped.
    pub categories: Seq<Seq<char>>,
}

/// The recognized fields of one parsed `.desktop` descriptor.
#[derive(Debug)]
pub struct DesktopEntry {
    /// The `Name` value, if present.
    pub name: Option<String>,
    /// The `Exec` value, if present.
    pub exec_cmd: Option<String>,
    /// The `MimeType` entries (`;`-delimited in the file), empty ones
    /// dropped.
    pub mime_types: Vec<String>,
    /// The `Categories` entries (`;`-delimited in the file), empty ones
    /// dropped.
    pub categories: Vec<String>,
}

impl View for DesktopEntry {
    type V = EntryModel;

    open spec fn view(&self) -> EntryModel {
        EntryModel {
            name: match self.name {
                Some(n) => Some(n@),
                None => None,
            },
            exec_cmd: match self.exec_cmd {
                Some(e) => Some(e@),
                None => None,
            },
            mime_types: self.mime_types.deep_view(),
            categories: self.categories.deep_view(),
        }
    }
}

/// The entry with no field read yet.
pub open spec fn empty_entry() -> EntryModel {
    EntryModel { name: None, exec_cmd: None, mime_types: Seq::empty(), categories: Seq::empty() }
}

/// The elements of `ts` from position `i` on, with empty elements dropped.
pub open spec fn keep_nonempty_from(ts: Seq<Seq<char>>, i: int) -> Seq<Seq<char>>
    decreases ts.len() - i,
{
    if !(0 <= i < ts.len()) {
        Seq::empty()
    } else if ts[i].len() > 0 {
        seq![ts[i]] + keep_nonempty_from(ts, i + 1)
    } else {
        keep_nonempty_from(ts, i + 1)
    }
}

/// Splits `s` at `sep` and drops empty pieces.
pub fn split_list(s: &str, sep: char) -> (r: Vec<String>)
    ensures
        r.deep_view() == keep_nonempty_from(split_from(s@, sep, 0), 0),
{
    let pieces = split_char(s, sep, 0);
    let ghost pieces_model = pieces.deep_view();
    let mut r: Vec<String> = Vec::new();
    let mut i: usize = 0;
    while i < pieces.len()
        invariant
            0 <= i <= pieces.len(),
            pieces_model == pieces.deep_view(),
            pieces_model == split_from(s@, sep, 0),
            r.deep_view() + keep_nonempty_from(pieces_model, i as int) == keep_nonempty_from(
                pieces_model,
                0,
            ),
        decreases pieces.len() - i,
    {
        let ghost pre = r.deep_view();
        assert(pieces.deep_view()[i as int] == pieces@[i as int]@);
        if pieces[i].as_str().unicode_len() > 0 {
            let piece = pieces[i].as_str().to_owned();
            r.push(piece);
            proof {
                assert(r.deep_view() =~= pre + seq![pieces_model[i as int]]);
                assert(pre + keep_nonempty_from(pieces_model, i as int) == keep_nonempty_from(
                    pieces_model,
                    0,
                ));
                assert(keep_nonempty_from(pieces_model, i as int) == seq![
                    pieces_model[i as int],
                ] + keep_nonempty_from(pieces_model, i + 1));
                assert(r.deep_view() + keep_nonempty_from(pieces_model, i + 1)
                    =~= pre + keep_nonempty_from(pieces_model, i as int));
            }
        }
        i += 1;
    }
    proof {
        assert(keep_nonempty_from(pieces_model, i as int) =~= Seq::<Seq<char>>::empty());
        assert(r.deep_view() =~= r.deep_view() + keep_nonempty_from(pieces_model, i as int));
    }
    r
}

/// One parsing step: how a single descriptor line changes the accumulated
/// entry and the are-we-inside-`[Desktop Entry]` flag.
pub open spec fn parse_step(acc: EntryModel, in_de: bool, line: Seq<char>) -> (EntryModel, bool) {
    let t = trim_spec(line);
    if t.len() > 0 && t[0] == '[' {
        (acc, t == "[Desktop Entry]"@)
    } else if !in_de {
        (acc, in_de)
    } else if t.len() == 0 || t[0] == '#' {
        (acc, in_de)
    } else {
        let e = find_from(t, '=', 0);
        if e == t.len() {
            (acc, in_de)
        } else {
            let key = t.subrange(0, e);
            let value = t.subrange(e + 1, t.len() as int);
            if key == "Name"@ {
                (EntryModel { name: Some(value), ..acc }, in_de)
            } else if key == "Exec"@ {
                (EntryModel { exec_cmd: Some(value), ..acc }, in_de)
            } else if key == "MimeType"@ {
                (
                    EntryModel {
                        mime_types: keep_nonempty_from(split_from(value, ';', 0), 0),
                        ..acc
                    },
                    in_de,
                )
            } else if key == "Categories"@ {
                (
                    EntryModel {
                        categories: keep_nonempty_from(split_from(value, ';', 0), 0),
                        ..acc
                    },
                    in_de,
                )
            } else {
                (acc, in_de)
            }
        }
    }
}

/// Folds `parse_step` over the lines from position `i` on.
pub open spec fn parse_lines(lines: Seq<Seq<char>>, i: int, acc: EntryModel, in_de: bool) -> EntryModel
    decreases lines.len() - i,
{
    if !(0 <= i < lines.len()) {
        acc
    } else {
        let next = parse_step(acc, in_de, lines[i]);
        parse_lines(lines, i + 1, next.0, next.1)
    }
}

/// The entry read from a whole descriptor: its lines folded through
/// `parse_step`, accepted only when both a `Name` and an `Exec` were found.
pub open spec fn parse_desktop_spec(content: Seq<char>) -> Option<EntryModel> {
    let m = parse_lines(split_from(content, '\n', 0), 0, empty_entry(), false);
    if m.name is Some && m.exec_cmd is Some {
        Some(m)
    } else {
        None
    }
}

/// Parses a `.desktop` descriptor: reads `Name`, `Exec`, `MimeType` and
/// `Categories` from the `[Desktop Entry]` section, ignoring comments, blank
/// lines, unknown keys and other sections. Returns `None` exactly when the
/// descriptor lacks a `Name` or an `Exec`.
pub fn parse_desktop_content(content: &str) -> (r: Option<DesktopEntry>)
    ensures
        match r {
            Some(e) => parse_desktop_spec(content@) == Some(e@),
            None => parse_desktop_spec(content@) is None,
        },
{
    let lines = split_char(content, '\n', 0);
    let ghost lines_model = lines.deep_view();
    let mut entry = DesktopEntry {
        name: None,
        exec_cmd: None,
        mime_types: Vec::new(),
        categories: Vec::new(),
    };
    let mut in_de = false;
    proof {
        assert(entry@ =~= empty_entry());
    }
    let mut i: usize = 0;
    while i < lines.len()
        invariant
            0 <= i <= lines.len(),
            lines_model == lines.deep_view(),
            lines_model == split_from(content@, '\n', 0),
            parse_lines(lines_model, i as int, entry@, in_de) == parse_lines(
                lines_model,
                0,
                empty_entry(),
                false,
            ),
        decreases lines.len() - i,
    {
        let ghost pre_entry = entry@;
        let ghost pre_inde = in_de;
        assert(lines.deep_view()[i as int] == lines@[i as int]@);
        let t = trim_str(lines[i].as_str());
        let ts = t.as_str();
        if first_char_is(ts, '[') {
            in_de = str_eq(ts, "[Desktop Entry]");
        } else if !in_de {
        } else if ts.unicode_len() == 0 || first_char_is(ts, '#') {
        } else {
            let e = find_char(ts, '=', 0);
            if e == ts.unicode_len() {
            } else {
                let key = ts.substring_char(0, e);
                let value = ts.substring_char(e + 1, ts.unicode_len()).to_owned();
                if str_eq(key, "Name") {
                    entry.name = Some(value);
                } else if str_eq(key, "Exec") {
                    entry.exec_cmd = Some(value);
                } else if str_eq(key, "MimeType") {
                    entry.mime_types = split_list(value.as_str(), ';');
                } else if str_eq(key, "Categories") {
                    entry.categories = split_list(value.as_str(), ';');
                }
            }
        }
        proof {
            assert(parse_step(pre_entry, pre_inde, lines_model[i as int]) == (entry@, in_de));
        }
        i += 1;
    }
    if entry.name.is_some() && entry.exec_cmd.is_some() {
        Some(entry)
    } else {
        None
    }
}

/// Returns whether some element of `l` equals `x`.
pub fn string_list_contains(l: &Vec<String>, x: &str) -> (r: bool)
    ensures
        r == seq_contains_str(l.deep_view(), x@),
{
    let mut i: usize = 0;
    while i < l.len()
        invariant
            0 <= i <= l.len(),
            forall|j: int| 0 <= j < i ==> l.deep_view()[j] != x@,
        decreases l.len() - i,
    {
        assert(l.deep_view()[i as int] == l@[i as int]@);
        if str_eq(l[i].as_str(), x) {
            assert(l.deep_view()[i as int] == x@);
            return true;
        }
        i += 1;
    }
    false
}

/// Whether a desktop entry declares web-browser capability: an HTTP or HTML
/// handler MIME type, or the `WebBrowser` category.
pub open spec fn entry_is_browser(e: EntryModel) -> bool {
    seq_contains_str(e.mime_types, "x-scheme-handler/http"@) || seq_contains_str(
        e.mime_types,
        "x-scheme-handler/https"@,
    ) || seq_contains_str(e.mime_types, "text/html"@) || seq_contains_str(
        e.categories,
        "WebBrowser"@,
    )
}

impl DesktopEntry {
    /// Returns whether this entry declares HTTP URL handling capability:
    /// one of the MIME types `x-scheme-handler/http`, `x-scheme-handler/https`
    /// or `text/html`, or the `WebBrowser` category.
    pub fn is_browser(&self) -> (r: bool)
        ensures
            r == entry_is_browser(self@),
    {
        string_list_contains(&self.mime_types, "x-scheme-handler/http") || string_list_contains(
            &self.mime_types,
            "x-scheme-handler/https",
        ) || string_list_contains(&self.mime_types, "text/html") || string_list_contains(
            &self.categories,
            "WebBrowser",
        )
    }
}

/// The position just past the last version character (an ASCII digit or a
/// dot) strictly before `j`, or `0` if there is none before `j`.
pub open spec fn version_end(w: Seq<char>, j: int) -> int
    decreases j,
{
    if !(0 < j <= w.len()) {
        0
    } else if is_digit(w[j - 1]) || w[j - 1] == '.' {
        j
    } else {
        version_end(w, j - 1)
    }
}

/// Whether a token looks like a version: it begins with an ASCII digit and
/// holds a dot.
pub open spec fn version_token(w: Seq<char>) -> bool {
    w.len() > 0 && is_digit(w[0]) && w.contains('.')
}

/// A version token with trailing punctuation removed: everything after the
/// last digit or dot is dropped.
pub open spec fn trim_version(w: Seq<char>) -> Seq<char> {
    w.take(version_end(w, w.len() as int))
}

/// The first whitespace-separated token of the output, from position `i`
/// on, that looks like a version, trimmed; `None` if there is none.
pub open spec fn find_version(toks: Seq<Seq<char>>, i: int) -> Option<Seq<char>>
    decreases toks.len() - i,
{
    if !(0 <= i < toks.len()) {
        None
    } else if version_token(toks[i]) && trim_version(toks[i]).len() > 0 {
        Some(trim_version(toks[i]))
    } else {
        find_version(toks, i + 1)
    }
}

/// The version read from the raw output of a `--version` invocation: the
/// first token over all lines that begins with a digit and holds a dot,
/// trailing non-version characters trimmed.
pub open spec fn version_of_output(out: Seq<char>) -> Option<Seq<char>> {
    find_version(ws_tokens(out), 0)
}

/// Returns `version_end(w@, j)` as an index into `w`.
fn version_end_index(w: &str, j: usize) -> (r: usize)
    requires
        j <= w@.len(),
    ensures
        r == version_end(w@, j as int),
        r <= j,
    decreases j,
{
    if j == 0 {
        0
    } else {
        let c = w.get_char(j - 1);
        if is_digit_char(c) || c == '.' {
            j
        } else {
            version_end_index(w, j - 1)
        }
    }
}

/// Parse a version number from `--version` output: the first token across
/// all lines that begins with an ASCII digit and holds a dot, with trailing
/// characters that are neither digits nor dots removed.
pub fn parse_version_string(output: &str) -> (r: Option<String>)
    ensures
        match r {
            Some(v) => version_of_output(output@) == Some(v@),
            None => version_of_output(output@) is None,
        },
{
    let toks = split_ws(output, 0);
    let ghost tm = toks.deep_view();
    let mut i: usize = 0;
    while i < toks.len()
        invariant
            0 <= i <= toks.len(),
            tm == toks.deep_view(),
            tm == ws_tokens(output@),
            find_version(tm, i as int) == find_version(tm, 0),
        decreases toks.len() - i,
    {
        assert(toks.deep_view()[i as int] == toks@[i as int]@);
        let w = toks[i].as_str();
        let looks = w.unicode_len() > 0 && is_digit_char(w.get_char(0)) && contains_char(w, '.');
        assert(looks == version_token(tm[i as int]));
        if looks {
            let end = version_end_index(w, w.unicode_len());
            if end > 0 {
                let v = w.substring_char(0, end).to_owned();
                assert(v@ == trim_version(tm[i as int]));
                return Some(v);
            }
        }
        i += 1;
    }
    None
}

/// The mathematical value of an [`ExecStep`].
pub enum ExecStepModel {
    /// The command line resolves to this executable path.
    Resolved(Seq<char>),
    /// The token needs a search of the shell's executable path; scanning
    /// would continue at the given position if the search fails and the
    /// token cannot stand on its own.
    Lookup(Seq<char>, int),
    /// No token determines an executable.
    Exhausted,
}

/// One step of `Exec`-field resolution: what the first decisive token from
/// position `i` on determines.
pub enum ExecStep {
    /// The command line resolves to this executable path.
    Resolved(String),
    /// The token needs a search of the shell's executable path; scanning
    /// would continue at the given position if the search fails and the
    /// token cannot stand on its own.
    Lookup(String, usize),
    /// No token determines an executable.
    Exhausted,
}

impl View for ExecStep {
    type V = ExecStepModel;

    open spec fn view(&self) -> ExecStepModel {
        match self {
            ExecStep::Resolved(p) => ExecStepModel::Resolved(p@),
            ExecStep::Lookup(t, n) => ExecStepModel::Lookup(t@, *n as int),
            ExecStep::Exhausted => ExecStepModel::Exhausted,
        }
    }
}

/// `Exec`-field scanning over the tokens from position `i` on: field codes
/// (`%u`), variable assignments (`=`), and wrapper commands (`env`, `sh`,
/// `-c`, `bash`) are skipped; `flatpak run <app>` and `snap run <name>`
/// yield synthetic paths; an absolute path stands as it is; any other token
/// needs a path search.
pub open spec fn exec_step_spec(toks: Seq<Seq<char>>, i: int) -> ExecStepModel
    decreases toks.len() - i,
{
    if !(0 <= i < toks.len()) {
        ExecStepModel::Exhausted
    } else {
        let t = toks[i];
        if t.len() > 0 && t[0] == '%' {
            exec_step_spec(toks, i + 1)
        } else if t.contains('=') {
            exec_step_spec(toks, i + 1)
        } else if t == "flatpak"@ && i + 1 < toks.len() && toks[i + 1] == "run"@ {
            if i + 2 < toks.len() {
                ExecStepModel::Resolved("/usr/bin/flatpak run "@ + toks[i + 2])
            } else {
                ExecStepModel::Resolved("/usr/bin/flatpak"@)
            }
        } else if t == "snap"@ && i + 1 < toks.len() && toks[i + 1] == "run"@ {
            if i + 2 < toks.len() {
                ExecStepModel::Resolved("/snap/bin/"@ + toks[i + 2])
            } else {
                ExecStepModel::Resolved("/usr/bin/snap"@)
            }
        } else if t == "env"@ || t == "sh"@ || t == "-c"@ || t == "bash"@ {
            exec_step_spec(toks, i + 1)
        } else if t.len() > 0 && t[0] == '/' {
            ExecStepModel::Resolved(t)
        } else {
            ExecStepModel::Lookup(t, i + 1)
        }
    }
}

/// A lookup step always advances: its continuation position lies strictly
/// beyond `i` and within the token list.
pub proof fn lemma_exec_step_lookup_bounds(toks: Seq<Seq<char>>, i: int)
    ensures
        forall|t: Seq<char>, n: int|
            exec_step_spec(toks, i) == ExecStepModel::Lookup(t, n) ==> i < n <= toks.len(),
    decreases toks.len() - i,
{
    if 0 <= i < toks.len() {
        lemma_exec_step_lookup_bounds(toks, i + 1);
    }
}

/// Scans the tokens from position `i` for the executable, with every path
/// search unavailable: a token that would need one stands on its own unless
/// it begins with `-`, in which case scanning continues.
pub open spec fn exec_path_spec(toks: Seq<Seq<char>>, i: int) -> Option<Seq<char>>
    decreases toks.len() - i,
    when 0 <= i
    via exec_path_spec_decreases
{
    match exec_step_spec(toks, i) {
        ExecStepModel::Resolved(p) => Some(p),
        ExecStepModel::Lookup(t, n) => if t.len() > 0 && t[0] != '-' {
            Some(t)
        } else {
            exec_path_spec(toks, n)
        },
        ExecStepModel::Exhausted => None,
    }
}

#[via_fn]
proof fn exec_path_spec_decreases(toks: Seq<Seq<char>>, i: int) {
    lemma_exec_step_lookup_bounds(toks, i);
}

/// Scans the tokens from position `i` for the executable, consuming the
/// path-search results in `whichs` one per token that needs one: a
/// successful search resolves the token; a failed one leaves the bare token
/// unless it begins with `-`, in which case scanning continues.
pub open spec fn resolve_exec_spec(
    toks: Seq<Seq<char>>,
    i: int,
    whichs: Seq<Option<Seq<char>>>,
    k: int,
) -> Option<Seq<char>>
    decreases toks.len() - i,
    when 0 <= i
    via resolve_exec_spec_decreases
{
    match exec_step_spec(toks, i) {
        ExecStepModel::Resolved(p) => Some(p),
        ExecStepModel::Lookup(t, n) => {
            let w = if 0 <= k < whichs.len() {
                whichs[k]
            } else {
                None
            };
            match w {
                Some(found) => Some(found),
                None => if t.len() > 0 && t[0] != '-' {
                    Some(t)
                } else {
                    resolve_exec_spec(toks, n, whichs, k + 1)
                },
            }
        },
        ExecStepModel::Exhausted => None,
    }
}

#[via_fn]
proof fn resolve_exec_spec_decreases(
    toks: Seq<Seq<char>>,
    i: int,
    whichs: Seq<Option<Seq<char>>>,
    k: int,
) {
    lemma_exec_step_lookup_bounds(toks, i);
}

/// Returns what the first decisive token of `toks` at or after position `i`
/// determines.
pub fn parse_exec_step(toks: &Vec<String>, i: usize) -> (r: ExecStep)
    ensures
        r@ == exec_step_spec(toks.deep_view(), i as int),
    decreases toks.len() - i,
{
    let ghost tm = toks.deep_view();
    if i >= toks.len() {
        return ExecStep::Exhausted;
    }
    assert(toks.deep_view()[i as int] == toks@[i as int]@);
    let t = toks[i].as_str();
    if first_char_is(t, '%') {
        parse_exec_step(toks, i + 1)
    } else if contains_char(t, '=') {
        parse_exec_step(toks, i + 1)
    } else if str_eq(t, "flatpak") && i + 1 < toks.len() && {
        assert(toks.deep_view()[i + 1] == toks@[i + 1]@);
        str_eq(toks[i + 1].as_str(), "run")
    } {
        if i + 2 < toks.len() {
            assert(toks.deep_view()[i + 2] == toks@[i + 2]@);
            let p = String::from_str("/usr/bin/flatpak run ").concat(toks[i + 2].as_str());
            ExecStep::Resolved(p)
        } else {
            ExecStep::Resolved(String::from_str("/usr/bin/flatpak"))
        }
    } else if str_eq(t, "snap") && i + 1 < toks.len() && {
        assert(toks.deep_view()[i + 1] == toks@[i + 1]@);
        str_eq(toks[i + 1].as_str(), "run")
    } {
        if i + 2 < toks.len() {
            assert(toks.deep_view()[i + 2] == toks@[i + 2]@);
            let p = String::from_str("/snap/bin/").concat(toks[i + 2].as_str());
            ExecStep::Resolved(p)
        } else {
            ExecStep::Resolved(String::from_str("/usr/bin/snap"))
        }
    } else if str_eq(t, "env") || str_eq(t, "sh") || str_eq(t, "-c") || str_eq(t, "bash") {
        parse_exec_step(toks, i + 1)
    } else if first_char_is(t, '/') {
        ExecStep::Resolved(t.to_owned())
    } else {
        ExecStep::Lookup(t.to_owned(), i + 1)
    }
}

/// Parse the `Exec` field to the executable path it names, with no path
/// search available: a relative command stands as it is. Field codes,
/// variable assignments and wrapper commands are skipped; `flatpak run` and
/// `snap run` forms yield their synthetic paths.
pub fn parse_exec_to_path(exec_line: &str) -> (r: Option<String>)
    ensures
        match r {
            Some(p) => exec_path_spec(ws_tokens(exec_line@), 0) == Some(p@),
            None => exec_path_spec(ws_tokens(exec_line@), 0) is None,
        },
{
    let toks = split_ws(exec_line, 0);
    let ghost tm = toks.deep_view();
    let mut i: usize = 0;
    loop
        invariant
            0 <= i <= toks.len(),
            tm == toks.deep_view(),
            tm == ws_tokens(exec_line@),
            exec_path_spec(tm, i as int) == exec_path_spec(tm, 0),
        decreases toks.len() - i,
    {
        match parse_exec_step(&toks, i) {
            ExecStep::Resolved(p) => {
                return Some(p);
            },
            ExecStep::Exhausted => {
                return None;
            },
            ExecStep::Lookup(t, n) => {
                proof {
                    lemma_exec_step_lookup_bounds(tm, i as int);
                }
                if t.as_str().unicode_len() > 0 && !first_char_is(t.as_str(), '-') {
                    return Some(t);
                }
                i = n;
            },
        }
    }
}

/// Parse the `Exec` field to the executable path it names, consuming the
/// given path-search results one per token that needed one.
pub fn resolve_exec_path(exec_line: &str, whichs: &Vec<Option<String>>) -> (r: Option<String>)
    ensures
        match r {
            Some(p) => resolve_exec_spec(ws_tokens(exec_line@), 0, whichs.deep_view(), 0) == Some(
                p@,
            ),
            None => resolve_exec_spec(ws_tokens(exec_line@), 0, whichs.deep_view(), 0) is None,
        },
{
    let toks = split_ws(exec_line, 0);
    let ghost tm = toks.deep_view();
    let ghost wm = whichs.deep_view();
    let mut i: usize = 0;
    let mut k: usize = 0;
    loop
        invariant
            0 <= k <= i <= toks.len(),
            tm == toks.deep_view(),
            tm == ws_tokens(exec_line@),
            wm == whichs.deep_view(),
            resolve_exec_spec(tm, i as int, wm, k as int) == resolve_exec_spec(tm, 0, wm, 0),
        decreases toks.len() - i,
    {
        match parse_exec_step(&toks, i) {
            ExecStep::Resolved(p) => {
                return Some(p);
            },
            ExecStep::Exhausted => {
                return None;
            },
            ExecStep::Lookup(t, n) => {
                proof {
                    lemma_exec_step_lookup_bounds(tm, i as int);
                }
                if k < whichs.len() {
                    assert(whichs.deep_view()[k as int] == whichs@[k as int].deep_view());
                    match &whichs[k] {
                        Some(found) => {
                            return Some(found.clone());
                        },
                        None => {},
                    }
                }
                if t.as_str().unicode_len() > 0 && !first_char_is(t.as_str(), '-') {
                    return Some(t);
                }
                i = n;
                k = k + 1;
            },
        }
    }
}

/// Whether a `--version` probe is worthwhile for an executable path: the
/// path is non-empty and is neither a `flatpak run` invocation nor a Snap
/// launcher path.
pub open spec fn probe_worthwhile(executable: Seq<char>) -> bool {
    executable.len() > 0 && !crate::text::contains_seq(executable, "flatpak run"@) && !(
    executable.len() >= "/snap/bin/"@.len() && executable.subrange(
        0,
        "/snap/bin/"@.len() as int,
    ) == "/snap/bin/"@)
}

/// Returns whether a `--version` probe is worthwhile for the executable:
/// probing is skipped for empty paths and for Flatpak and Snap launcher
/// forms, whose version is left absent.
pub fn should_probe_version(executable: &str) -> (r: bool)
    ensures
        r == probe_worthwhile(executable@),
{
    executable.unicode_len() > 0 && !crate::text::contains_str(executable, "flatpak run")
        && !crate::text::starts_with_str(executable, "/snap/bin/")
}

/// The executable path to record: the resolved path, or empty when none was
/// resolved.
pub open spec fn exec_or_empty(e: Option<Seq<char>>) -> Seq<char> {
    match e {
        Some(p) => p,
        None => Seq::empty(),
    }
}

/// The version parsed from a raw probe output, when one was captured.
pub open spec fn parsed_version(vout: Option<Seq<char>>) -> Option<Seq<char>> {
    match vout {
        Some(o) => version_of_output(o),
        None => None,
    }
}

/// The browser built for one desktop entry: registry metadata when the
/// desktop id is known, metadata derived from the entry otherwise.
pub open spec fn build_browser_spec(
    desktop_id: Seq<char>,
    e: EntryModel,
    executable: Option<Seq<char>>,
    vout: Option<Seq<char>>,
) -> BrowserModel {
    let version = parsed_version(vout);
    match spec_find_by_desktop_id(desktop_id) {
        Some(meta) => BrowserModel {
            id: meta.id,
            name: meta.name,
            variant: meta.variant,
            version,
            executable: exec_or_empty(executable),
            bundle_id: None,
        },
        None => BrowserModel {
            id: desktop_id,
            name: match e.name {
                Some(n) => n,
                None => desktop_id,
            },
            variant: BrowserVariant::Single(BrowserFamily::Other),
            version,
            executable: exec_or_empty(executable),
            bundle_id: None,
        },
    }
}

/// Build a browser from a desktop entry: on a registry hit the canonical
/// id, name and variant come from the registry; otherwise the desktop id
/// and the entry's `Name` stand in, with family `Other`. The version is
/// parsed from the raw probe output, if one is given.
pub fn build_browser(
    desktop_id: &str,
    entry: &DesktopEntry,
    executable: Option<String>,
    version_output: Option<&str>,
) -> (r: Browser)
    ensures
        r@ == build_browser_spec(
            desktop_id@,
            entry@,
            executable.deep_view(),
            match version_output {
                Some(o) => Some(o@),
                None => None,
            },
        ),
{
    let version = match version_output {
        Some(o) => parse_version_string(o),
        None => None,
    };
    let exec_path = match executable {
        Some(p) => p,
        None => String::new(),
    };
    match find_by_desktop_id(desktop_id) {
        Some(meta) => Browser::new(
            String::from_str(meta.id),
            String::from_str(meta.name),
            exec_path,
        ).with_variant(meta.variant).maybe_with_version(version),
        None => {
            let name = match &entry.name {
                Some(n) => n.clone(),
                None => String::from_str(desktop_id),
            };
            Browser::new(String::from_str(desktop_id), name, exec_path).with_variant(
                BrowserVariant::Single(BrowserFamily::Other),
            ).maybe_with_version(version)
        },
    }
}

/// The mathematical value of a [`DesktopCandidate`].
pub struct CandidateModel {
    /// Desktop id: the file basename without its extension.
    pub desktop_id: Seq<char>,
    /// The descriptor file's text.
    pub content: Seq<char>,
    /// Path-search results, one per command token that needed one.
    pub which_results: Seq<Option<Seq<char>>>,
    /// Raw `--version` output, if a probe ran.
    pub version_output: Option<Seq<char>>,
}

/// One `.desktop` file together with the per-candidate results of the two
/// helper commands detection may use: the executable path search and the
/// `--version` probe. The caller gathers these; everything else is computed
/// here.
pub struct DesktopCandidate {
    /// Desktop id: the file basename without its extension.
    pub desktop_id: String,
    /// The descriptor file's text.
    pub content: String,
    /// Path-search results, one per command token that needed one; `None`
    /// for a search that failed or found nothing.
    pub which_results: Vec<Option<String>>,
    /// Raw `--version` output, if a probe ran.
    pub version_output: Option<String>,
}

impl View for DesktopCandidate {
    type V = CandidateModel;

    open spec fn view(&self) -> CandidateModel {
        CandidateModel {
            desktop_id: self.desktop_id@,
            content: self.content@,
            which_results: self.which_results.deep_view(),
            version_output: match self.version_output {
                Some(o) => Some(o@),
                None => None,
            },
        }
    }
}

/// The views of a sequence of candidates.
pub open spec fn candidates_model(s: Seq<DesktopCandidate>) -> Seq<CandidateModel> {
    s.map_values(|c: DesktopCandidate| c@)
}

/// The browser one candidate yields: `None` when its descriptor does not
/// parse or does not declare browser capability.
pub open spec fn candidate_browser_spec(c: CandidateModel) -> Option<BrowserModel> {
    match parse_desktop_spec(c.content) {
        None => None,
        Some(e) => if !entry_is_browser(e) {
            None
        } else {
            let executable = match e.exec_cmd {
                Some(cmd) => resolve_exec_spec(ws_tokens(cmd), 0, c.which_results, 0),
                None => None,
            };
            Some(build_browser_spec(c.desktop_id, e, executable, c.version_output))
        },
    }
}

/// Turns one candidate into a browser: parses its descriptor, rejects
/// non-browsers, resolves the executable from the `Exec` field, and builds
/// the enriched record.
pub fn candidate_browser(c: &DesktopCandidate) -> (r: Option<Browser>)
    ensures
        match r {
            Some(b) => candidate_browser_spec(c@) == Some(b@),
            None => candidate_browser_spec(c@) is None,
        },
{
    let entry = match parse_desktop_content(c.content.as_str()) {
        Some(e) => e,
        None => {
            return None;
        },
    };
    if !entry.is_browser() {
        return None;
    }
    let executable = match &entry.exec_cmd {
        Some(cmd) => resolve_exec_path(cmd.as_str(), &c.which_results),
        None => None,
    };
    let b = build_browser(
        c.desktop_id.as_str(),
        &entry,
        executable,
        match &c.version_output {
            Some(o) => Some(o.as_str()),
            None => None,
        },
    );
    Some(b)
}

/// The browsers the candidates from position `i` on yield, in order, each
/// canonical id kept only the first time it appears; `seen` holds the ids
/// already taken.
pub open spec fn linux_detect_from(
    cands: Seq<CandidateModel>,
    i: int,
    seen: Set<Seq<char>>,
) -> Seq<BrowserModel>
    decreases cands.len() - i,
{
    if !(0 <= i < cands.len()) {
        Seq::empty()
    } else {
        match candidate_browser_spec(cands[i]) {
            None => linux_detect_from(cands, i + 1, seen),
            Some(b) => if seen.contains(b.id) {
                linux_detect_from(cands, i + 1, seen)
            } else {
                seq![b] + linux_detect_from(cands, i + 1, seen.insert(b.id))
            },
        }
    }
}

/// The browsers a list of candidates yields: one per browser-capable
/// descriptor, in candidate order, duplicates by canonical id dropped.
pub open spec fn linux_detect_spec(cands: Seq<CandidateModel>) -> Seq<BrowserModel> {
    linux_detect_from(cands, 0, Set::empty())
}

/// Detect all browsers among the given desktop-file candidates: each
/// browser-capable descriptor yields one record, in input order; a browser
/// registered under several files (the same canonical id) is kept only the
/// first time.
pub fn detect_browsers(candidates: &Vec<DesktopCandidate>) -> (r: Vec<Browser>)
    ensures
        browsers_model(r@) == linux_detect_spec(candidates_model(candidates@)),
{
    let ghost cm = candidates_model(candidates@);
    let mut out: Vec<Browser> = Vec::new();
    let mut seen: Vec<String> = Vec::new();
    let ghost mut seen_set = Set::<Seq<char>>::empty();
    proof {
        assert(browsers_model(out@) + linux_detect_from(cm, 0, seen_set) =~= linux_detect_from(
            cm,
            0,
            Set::empty(),
        ));
    }
    let mut i: usize = 0;
    while i < candidates.len()
        invariant
            0 <= i <= candidates.len(),
            cm == candidates_model(candidates@),
            browsers_model(out@) + linux_detect_from(cm, i as int, seen_set) == linux_detect_from(
                cm,
                0,
                Set::empty(),
            ),
            forall|x: Seq<char>| #[trigger]
                seen_set.contains(x) <==> seq_contains_str(seen.deep_view(), x),
        decreases candidates.len() - i,
    {
        let ghost pre_out = out@;
        let ghost pre_seen_set = seen_set;
        assert(cm[i as int] == candidates@[i as int]@);
        match candidate_browser(&candidates[i]) {
            None => {},
            Some(b) => {
                if !string_list_contains(&seen, b.id.0.as_str()) {
                    let ghost pre_seen = seen.deep_view();
                    let id_copy = b.id.0.clone();
                    let ghost bm = b@;
                    seen.push(id_copy);
                    out.push(b);
                    proof {
                        seen_set = seen_set.insert(bm.id);
                        assert(seen.deep_view() =~= pre_seen + seq![bm.id]);
                        assert forall|x: Seq<char>| #[trigger] seen_set.contains(x)
                            <==> seq_contains_str(seen.deep_view(), x) by {
                            if seen_set.contains(x) {
                                if pre_seen_set.contains(x) {
                                    let k = choose|k: int|
                                        0 <= k < pre_seen.len() && pre_seen[k] == x;
                                    assert(seen.deep_view()[k] == x);
                                } else {
                                    assert(seen.deep_view()[pre_seen.len() as int] == x);
                                }
                            }
                            if seq_contains_str(seen.deep_view(), x) {
                                let k = choose|k: int|
                                    0 <= k < seen.deep_view().len() && seen.deep_view()[k] == x;
                                if k < pre_seen.len() {
                                    assert(pre_seen[k] == x);
                                }
                            }
                        }
                        assert(browsers_model(out@) =~= browsers_model(pre_out) + seq![bm]);
                        assert(browsers_model(pre_out) + (seq![bm] + linux_detect_from(
                            cm,
                            i + 1,
                            seen_set,
                        )) =~= (browsers_model(pre_out) + seq![bm]) + linux_detect_from(
                            cm,
                            i + 1,
                            seen_set,
                        ));
                    }
                } else {
                    proof {
                        assert(seen_set.contains(b@.id));
                    }
                }
            },
        }
        i += 1;
    }
    out
}

/// Whether a detected browser matches the desktop id the settings query
/// named: through the registry's alias list when its canonical id is known,
/// by literal desktop-id equality otherwise.
pub open spec fn default_matches(b: BrowserModel, desktop_id: Seq<char>) -> bool {
    match spec_find_by_id(b.id) {
        Some(meta) => seq_contains_str(meta.linux_desktop_ids, desktop_id),
        None => b.id == desktop_id,
    }
}

/// The first browser from position `i` on that matches the desktop id.
pub open spec fn find_default_in(bs: Seq<BrowserModel>, i: int, desktop_id: Seq<char>) -> Option<
    BrowserModel,
>
    decreases bs.len() - i,
{
    if !(0 <= i < bs.len()) {
        None
    } else if default_matches(bs[i], desktop_id) {
        Some(bs[i])
    } else {
        find_default_in(bs, i + 1, desktop_id)
    }
}

/// `s` with one trailing `.desktop` extension removed, if it carries one.
pub open spec fn strip_desktop_suffix(s: Seq<char>) -> Seq<char> {
    if s.len() >= ".desktop"@.len() && s.subrange(s.len() - ".desktop"@.len(), s.len() as int)
        == ".desktop"@ {
        s.take(s.len() - ".desktop"@.len())
    } else {
        s
    }
}

/// The default browser the settings output names among the candidates'
/// browsers: the output is trimmed, a `.desktop` suffix stripped, and the
/// first detected browser matching the resulting desktop id is taken.
pub open spec fn linux_default_spec(cands: Seq<CandidateModel>, setting: Option<Seq<char>>) -> Option<
    BrowserModel,
> {
    match setting {
        None => None,
        Some(raw) => {
            let t = trim_spec(raw);
            if t.len() == 0 {
                None
            } else {
                find_default_in(linux_detect_spec(cands), 0, strip_desktop_suffix(t))
            }
        },
    }
}

/// Detect the default browser: `setting` is the raw output of the desktop
/// settings query for the default web browser (`None` when the query
/// failed). Its value, trimmed and with any `.desktop` suffix stripped, is
/// matched against the detected browsers — by registry alias for known
/// browsers, by literal desktop id otherwise.
pub fn detect_default_browser(candidates: &Vec<DesktopCandidate>, setting: Option<&str>) -> (r:
    Option<Browser>)
    ensures
        match r {
            Some(b) => linux_default_spec(
                candidates_model(candidates@),
                match setting {
                    Some(s) => Some(s@),
                    None => None,
                },
            ) == Some(b@),
            None => linux_default_spec(
                candidates_model(candidates@),
                match setting {
                    Some(s) => Some(s@),
                    None => None,
                },
            ) is None,
        },
{
    let raw = match setting {
        Some(s) => s,
        None => {
            return None;
        },
    };
    let trimmed = trim_str(raw);
    let ts = trimmed.as_str();
    if ts.unicode_len() == 0 {
        return None;
    }
    let suffix = ".desktop";
    let desktop_id = if ends_with_str(ts, suffix) {
        let n = ts.unicode_len();
        let cut = ts.substring_char(0, n - suffix.unicode_len()).to_owned();
        proof {
            assert(cut@ =~= strip_desktop_suffix(trimmed@));
        }
        cut
    } else {
        trimmed
    };
    let browsers = detect_browsers(candidates);
    let ghost bm = browsers_model(browsers@);
    let mut j: usize = 0;
    while j < browsers.len()
        invariant
            0 <= j <= browsers.len(),
            bm == browsers_model(browsers@),
            bm == linux_detect_spec(candidates_model(candidates@)),
            setting matches Some(s) && s@ == raw@,
            trim_spec(raw@).len() > 0,
            desktop_id@ == strip_desktop_suffix(trim_spec(raw@)),
            find_default_in(bm, j as int, desktop_id@) == find_default_in(bm, 0, desktop_id@),
        decreases browsers.len() - j,
    {
        assert(browsers_model(browsers@)[j as int] == browsers@[j as int]@);
        let matched = match find_by_id(browsers[j].id.0.as_str()) {
            Some(meta) => meta.linux_ids_contain(desktop_id.as_str()),
            None => str_eq(browsers[j].id.0.as_str(), desktop_id.as_str()),
        };
        assert(matched == default_matches(bm[j as int], desktop_id@));
        if matched {
            return Some(browsers[j].clone());
        }
        j += 1;
    }
    None
}

} // verus!
