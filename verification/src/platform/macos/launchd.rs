//! The `launchd` user agent: the plist this tool generates, the two
//! values it reads back out of an existing plist, and the install
//! decision made from them. Reading and writing the plist, the
//! concurrent-modification checks around the write, and `launchctl`
//! itself are I/O and run outside the library.

use vstd::prelude::*;

use crate::parse::{
    all_digits, digits_value, find_from, is_digit, is_ws, lemma_find_from, occurs_once,
    occurs_once_exec, parse_u64, parse_u64_exec, split_first, split_first_exec, split_second,
    split_second_exec, trim, trim_exec,
};
use crate::path::{path_join, push_joined};
use crate::text::{
    chars_eq, chars_of, decimal, digit_char, occurs_at, push_chars, push_decimal, push_str, string_from_chars,
};

verus! {

/// The `launchd` label this daemon registers under.
pub const LABEL: &'static str = "com.glomeris.monitor";

/// The `StartInterval` a fresh install asks for, in seconds.
pub const DEFAULT_START_INTERVAL_SECS: u64 = 60;

/// One character of XML text: `&`, `<`, `>` and `"` become entities.
pub open spec fn xml_escape_char(c: char) -> Seq<char> {
    if c == '&' {
        "&amp;"@
    } else if c == '<' {
        "&lt;"@
    } else if c == '>' {
        "&gt;"@
    } else if c == '"' {
        "&quot;"@
    } else {
        seq![c]
    }
}

/// `s` with its XML special characters escaped.
pub open spec fn spec_xml_escape(s: Seq<char>) -> Seq<char>
    decreases s.len(),
{
    if s.len() == 0 {
        Seq::empty()
    } else {
        spec_xml_escape(s.drop_last()) + xml_escape_char(s.last())
    }
}

/// Escapes `s` for XML character data and attribute values.
pub fn xml_escape(s: &str) -> (r: Vec<char>)
    ensures
        r@ == spec_xml_escape(s@),
{
    let cs = chars_of(s);
    let mut out: Vec<char> = Vec::new();
    let mut i: usize = 0;
    while i < cs.len()
        invariant
            0 <= i <= cs@.len(),
            cs@ == s@,
            out@ == spec_xml_escape(cs@.subrange(0, i as int)),
        decreases cs@.len() - i,
    {
        let c = cs[i];
        if c == '&' {
            push_str(&mut out, "&amp;");
        } else if c == '<' {
            push_str(&mut out, "&lt;");
        } else if c == '>' {
            push_str(&mut out, "&gt;");
        } else if c == '"' {
            push_str(&mut out, "&quot;");
        } else {
            out.push(c);
        }
        proof {
            assert(cs@.subrange(0, i + 1).drop_last() =~= cs@.subrange(0, i as int));
        }
        i = i + 1;
        assert(out@ =~= spec_xml_escape(cs@.subrange(0, i as int)));
    }
    assert(cs@.subrange(0, cs@.len() as int) =~= cs@);
    out
}

/// The plist that runs `program daemon run` every `interval` seconds with
/// its output in `log_dir`.
pub open spec fn spec_generate_plist(program: Seq<char>, interval: u64, log_dir: Seq<char>) -> Seq<char> {
    "<?xml version=\"1.0\" encoding=\"UTF-8\"?>\n<!DOCTYPE plist PUBLIC \"-//Apple//DTD PLIST 1.0//EN\" \"http://www.apple.com/DTDs/PropertyList-1.0.dtd\">\n<plist version=\"1.0\">\n<dict>\n    <key>Label</key>\n    <string>"@
        + "com.glomeris.monitor"@
        + "</string>\n    <key>ProgramArguments</key>\n    <array>\n        <string>"@
        + spec_xml_escape(program)
        + "</string>\n        <string>daemon</string>\n        <string>run</string>\n    </array>\n    <key>StartInterval</key>\n    <integer>"@
        + decimal(interval as nat)
        + "</integer>\n    <key>RunAtLoad</key>\n    <true/>\n    <key>StandardOutPath</key>\n    <string>"@
        + spec_xml_escape(path_join(log_dir, "monitor.log"@))
        + "</string>\n    <key>StandardErrorPath</key>\n    <string>"@
        + spec_xml_escape(path_join(log_dir, "monitor.err.log"@))
        + "</string>\n</dict>\n</plist>\n"@
}

fn joined(dir: &str, name: &str) -> (r: String)
    ensures
        r@ == path_join(dir@, name@),
{
    let mut out: Vec<char> = Vec::new();
    push_joined(&mut out, dir, name);
    assert(out@ =~= path_join(dir@, name@));
    string_from_chars(out.as_slice())
}

fn generate_plist_chars(program_path: &str, start_interval_secs: u64, log_dir: &str) -> (r: Vec<char>)
    ensures
        r@ == spec_generate_plist(program_path@, start_interval_secs, log_dir@),
{
    let program = xml_escape(program_path);
    let stdout_path = joined(log_dir, "monitor.log");
    let stderr_path = joined(log_dir, "monitor.err.log");
    let stdout_log = xml_escape(stdout_path.as_str());
    let stderr_log = xml_escape(stderr_path.as_str());
    let mut out: Vec<char> = Vec::new();
    push_str(
        &mut out,
        "<?xml version=\"1.0\" encoding=\"UTF-8\"?>\n<!DOCTYPE plist PUBLIC \"-//Apple//DTD PLIST 1.0//EN\" \"http://www.apple.com/DTDs/PropertyList-1.0.dtd\">\n<plist version=\"1.0\">\n<dict>\n    <key>Label</key>\n    <string>",
    );
    push_str(&mut out, "com.glomeris.monitor");
    push_str(&mut out, "</string>\n    <key>ProgramArguments</key>\n    <array>\n        <string>");
    push_chars(&mut out, &program);
    push_str(
        &mut out,
        "</string>\n        <string>daemon</string>\n        <string>run</string>\n    </array>\n    <key>StartInterval</key>\n    <integer>",
    );
    push_decimal(&mut out, start_interval_secs);
    push_str(
        &mut out,
        "</integer>\n    <key>RunAtLoad</key>\n    <true/>\n    <key>StandardOutPath</key>\n    <string>",
    );
    push_chars(&mut out, &stdout_log);
    push_str(&mut out, "</string>\n    <key>StandardErrorPath</key>\n    <string>");
    push_chars(&mut out, &stderr_log);
    push_str(&mut out, "</string>\n</dict>\n</plist>\n");
    assert(out@ =~= spec_generate_plist(program_path@, start_interval_secs, log_dir@));
    out
}

/// Renders the agent's plist: run `program_path daemon run` every
/// `start_interval_secs` seconds, with stdout and stderr logged into
/// `log_dir`.
pub fn generate_plist(program_path: &str, start_interval_secs: u64, log_dir: &str) -> (r: String)
    ensures
        r@ == spec_generate_plist(program_path@, start_interval_secs, log_dir@),
{
    let v = generate_plist_chars(program_path, start_interval_secs, log_dir);
    string_from_chars(v.as_slice())
}

/// The `StartInterval` value of a plist: the integer after the one and
/// only `<key>StartInterval</key>`. A second marker anywhere (for example
/// inside a program argument) makes it refuse rather than guess.
pub open spec fn spec_extract_start_interval(xml: Seq<char>) -> Option<u64> {
    if !occurs_once(xml, "<key>StartInterval</key>"@) {
        None
    } else {
        match split_second(xml, "<key>StartInterval</key>"@) {
            None => None,
            Some(after_key) => match split_second(after_key, "<integer>"@) {
                None => None,
                Some(after_open) => parse_u64(trim(split_first(after_open, "</integer>"@))),
            },
        }
    }
}

/// Best-effort read of the `StartInterval` of an existing plist.
pub fn extract_start_interval_secs(xml: &str) -> (r: Option<u64>)
    ensures
        r == spec_extract_start_interval(xml@),
{
    let x = chars_of(xml);
    let marker = chars_of("<key>StartInterval</key>");
    if !occurs_once_exec(&x, &marker) {
        return None;
    }
    let after_key = match split_second_exec(&x, &marker) {
        None => return None,
        Some(a) => a,
    };
    let open = chars_of("<integer>");
    let after_open = match split_second_exec(&after_key, &open) {
        None => return None,
        Some(a) => a,
    };
    let close = chars_of("</integer>");
    let value = split_first_exec(&after_open, &close);
    let trimmed = trim_exec(&value);
    parse_u64_exec(&trimmed)
}

/// The program path of a plist: the first `<string>` of the array after
/// the one and only `<key>ProgramArguments</key>`.
pub open spec fn spec_extract_program_path(xml: Seq<char>) -> Option<Seq<char>> {
    if !occurs_once(xml, "<key>ProgramArguments</key>"@) {
        None
    } else {
        match split_second(xml, "<key>ProgramArguments</key>"@) {
            None => None,
            Some(after_key) => match split_second(after_key, "<array>"@) {
                None => None,
                Some(after_array) => match split_second(after_array, "<string>"@) {
                    None => None,
                    Some(after_string) => Some(split_first(after_string, "</string>"@)),
                },
            },
        }
    }
}

/// Best-effort read of the program path of an existing plist; never
/// trusted as an executable path on its own.
pub fn extract_program_path(xml: &str) -> (r: Option<String>)
    ensures
        match spec_extract_program_path(xml@) {
            Some(p) => r matches Some(s) && s@ == p,
            None => r is None,
        },
{
    let x = chars_of(xml);
    let marker = chars_of("<key>ProgramArguments</key>");
    if !occurs_once_exec(&x, &marker) {
        return None;
    }
    let after_key = match split_second_exec(&x, &marker) {
        None => return None,
        Some(a) => a,
    };
    let array = chars_of("<array>");
    let after_array = match split_second_exec(&after_key, &array) {
        None => return None,
        Some(a) => a,
    };
    let string_open = chars_of("<string>");
    let after_string = match split_second_exec(&after_array, &string_open) {
        None => return None,
        Some(a) => a,
    };
    let close = chars_of("</string>");
    let value = split_first_exec(&after_string, &close);
    Some(string_from_chars(value.as_slice()))
}

/// The result of an install.
#[derive(Debug, Clone, Copy, PartialEq, Eq, Structural)]
pub enum InstallOutcome {
    /// No plist existed before.
    Installed,
    /// The existing plist is exactly what a fresh install would write.
    AlreadyUpToDate,
    /// The existing plist differed only in its interval (kept) and/or its
    /// program path (refreshed), and was rewritten.
    Repaired,
    /// The existing plist carries another customization and `force` was
    /// not set: nothing was changed.
    RefusedNeedsForce,
    /// Someone else modified the plist between the read and the write:
    /// the write was abandoned.
    AbortedConcurrentModification,
}

impl InstallOutcome {
    /// Whether the agent is (re)loaded with `launchctl load -w` afterwards:
    /// whenever the plist on disk is now this tool's own, that is every
    /// outcome but a refusal or an abandoned write.
    pub fn loads_agent(&self) -> (r: bool)
        ensures
            r == (*self is Installed || *self is AlreadyUpToDate || *self is Repaired),
    {
        match self {
            InstallOutcome::Installed | InstallOutcome::AlreadyUpToDate | InstallOutcome::Repaired => true,
            InstallOutcome::RefusedNeedsForce | InstallOutcome::AbortedConcurrentModification => false,
        }
    }
}

/// What an install should do, decided from the plist on disk (if any).
#[derive(Debug, Clone, PartialEq, Eq)]
pub enum InstallPlan {
    /// No plist: write this fresh one.
    WriteFresh(String),
    /// Nothing to do.
    UpToDate,
    /// Refuse: a customization this tool does not manage, and no `force`.
    NeedsForce,
    /// Back up the existing plist and write this one, after checking that
    /// nobody changed the file meanwhile.
    Repair(String),
}

/// The interval to keep: the existing plist's, else the default.
pub open spec fn effective_interval(existing: Seq<char>) -> u64 {
    match spec_extract_start_interval(existing) {
        Some(n) => n,
        None => 60,
    }
}

/// The existing plist is exactly what this tool would generate for its
/// own program path and interval.
pub open spec fn matches_own_shape(existing: Seq<char>, log_dir: Seq<char>) -> bool {
    match spec_extract_program_path(existing) {
        Some(p) => spec_generate_plist(p, effective_interval(existing), log_dir) == existing,
        None => false,
    }
}

/// The install decision.
pub open spec fn spec_plan_install(
    existing: Option<Seq<char>>,
    program: Seq<char>,
    force: bool,
    log_dir: Seq<char>,
) -> InstallPlanView {
    match existing {
        None => InstallPlanView::WriteFresh(spec_generate_plist(program, 60, log_dir)),
        Some(e) => if e == spec_generate_plist(program, 60, log_dir) {
            InstallPlanView::UpToDate
        } else if !matches_own_shape(e, log_dir) && !force {
            InstallPlanView::NeedsForce
        } else {
            InstallPlanView::Repair(spec_generate_plist(program, effective_interval(e), log_dir))
        },
    }
}

/// The plain content of an [`InstallPlan`].
pub enum InstallPlanView {
    WriteFresh(Seq<char>),
    UpToDate,
    NeedsForce,
    Repair(Seq<char>),
}

impl View for InstallPlan {
    type V = InstallPlanView;

    open spec fn view(&self) -> InstallPlanView {
        match self {
            InstallPlan::WriteFresh(s) => InstallPlanView::WriteFresh(s@),
            InstallPlan::UpToDate => InstallPlanView::UpToDate,
            InstallPlan::NeedsForce => InstallPlanView::NeedsForce,
            InstallPlan::Repair(s) => InstallPlanView::Repair(s@),
        }
    }
}

/// Decide an install: write a fresh plist when there is none; nothing when
/// the existing one is what a fresh install would write; refuse without
/// `force` when it carries a customization this tool does not manage;
/// otherwise rewrite it for the current program path, keeping its
/// interval.
pub fn plan_install(existing: Option<&str>, program_path: &str, force: bool, log_dir: &str) -> (r:
    InstallPlan)
    ensures
        r@ == spec_plan_install(
            match existing {
                Some(e) => Some(e@),
                None => None,
            },
            program_path@,
            force,
            log_dir@,
        ),
{
    let e = match existing {
        None => return InstallPlan::WriteFresh(generate_plist(program_path, 60, log_dir)),
        Some(e) => e,
    };
    let interval = match extract_start_interval_secs(e) {
        Some(n) => n,
        None => DEFAULT_START_INTERVAL_SECS,
    };
    let existing_chars = chars_of(e);
    let fresh = generate_plist_chars(program_path, 60, log_dir);
    if chars_eq(existing_chars.as_slice(), fresh.as_slice()) {
        return InstallPlan::UpToDate;
    }
    let own_shape = match extract_program_path(e) {
        Some(p) => {
            let regenerated = generate_plist_chars(p.as_str(), interval, log_dir);
            chars_eq(regenerated.as_slice(), existing_chars.as_slice())
        },
        None => false,
    };
    if !own_shape && !force {
        return InstallPlan::NeedsForce;
    }
    InstallPlan::Repair(generate_plist(program_path, interval, log_dir))
}

/// Installing over the plist a fresh install would write changes nothing.
pub proof fn lemma_install_is_idempotent(program: Seq<char>, force: bool, log_dir: Seq<char>)
    ensures
        spec_plan_install(Some(spec_generate_plist(program, 60, log_dir)), program, force, log_dir)
            == InstallPlanView::UpToDate,
{
}

/// Current on-disk and `launchd` status of the agent.
#[derive(Debug, Clone, PartialEq, Eq)]
pub struct DaemonStatus {
    pub plist_installed: bool,
    pub plist_path: String,
    /// Whether `launchctl` reported the job as loaded; `false`, never an
    /// error, when `launchctl` cannot run.
    pub loaded: bool,
}


/// No occurrence of `m` can start in `x`: every character of `x` that could
/// begin `m` is followed, still inside `x`, by one that differs from `m`.
pub open spec fn starts_break(x: Seq<char>, m: Seq<char>) -> bool {
    forall|j: int|
        0 <= j < x.len() && #[trigger] x[j] == m[0] ==> exists|u: int|
            0 <= u < m.len() && j + u < x.len() && #[trigger] x[j + u] != m[u]
}

proof fn lemma_break_concat(a: Seq<char>, b: Seq<char>, m: Seq<char>)
    requires
        starts_break(a, m),
        starts_break(b, m),
    ensures
        starts_break(a + b, m),
{
    let x = a + b;
    assert forall|j: int| 0 <= j < x.len() && #[trigger] x[j] == m[0] implies exists|u: int|
        0 <= u < m.len() && j + u < x.len() && #[trigger] x[j + u] != m[u] by {
        if j < a.len() {
            assert(a[j] == m[0]);
            let u = choose|u: int| 0 <= u < m.len() && j + u < a.len() && #[trigger] a[j + u] != m[u];
            assert(x[j + u] == a[j + u]);
        } else {
            let k = j - a.len();
            assert(b[k] == m[0]);
            let u = choose|u: int| 0 <= u < m.len() && k + u < b.len() && #[trigger] b[k + u] != m[u];
            assert(x[j + u] == b[k + u]);
        }
    }
}

proof fn lemma_break_without_first(s: Seq<char>, m: Seq<char>)
    requires
        forall|i: int| 0 <= i < s.len() ==> #[trigger] s[i] != m[0],
    ensures
        starts_break(s, m),
{
}

proof fn lemma_break_before(a: Seq<char>, b: Seq<char>, m: Seq<char>)
    requires
        starts_break(a, m),
        m.len() > 0,
    ensures
        forall|j: int| 0 <= j < a.len() ==> !#[trigger] occurs_at(a + b, m, j),
{
    assert forall|j: int| 0 <= j < a.len() implies !#[trigger] occurs_at(a + b, m, j) by {
        if occurs_at(a + b, m, j) {
            let x = a + b;
            assert(x.subrange(j, j + m.len())[0] == x[j]);
            assert(a[j] == m[0]);
            let u = choose|u: int| 0 <= u < m.len() && j + u < a.len() && #[trigger] a[j + u] != m[u];
            assert(x.subrange(j, j + m.len())[u] == x[j + u]);
        }
    }
}

proof fn lemma_break_after(a: Seq<char>, b: Seq<char>, m: Seq<char>)
    requires
        starts_break(b, m),
        m.len() > 0,
    ensures
        forall|j: int| a.len() <= j ==> !#[trigger] occurs_at(a + b, m, j),
{
    assert forall|j: int| a.len() <= j implies !#[trigger] occurs_at(a + b, m, j) by {
        if occurs_at(a + b, m, j) {
            let x = a + b;
            let k = j - a.len();
            assert(x.subrange(j, j + m.len())[0] == x[j]);
            assert(b[k] == m[0]);
            let u = choose|u: int| 0 <= u < m.len() && k + u < b.len() && #[trigger] b[k + u] != m[u];
            assert(x.subrange(j, j + m.len())[u] == x[j + u]);
        }
    }
}

proof fn lemma_find_first(s: Seq<char>, m: Seq<char>, from: int, q: int)
    requires
        0 <= from <= q,
        occurs_at(s, m, q),
        forall|j: int| from <= j < q ==> !#[trigger] occurs_at(s, m, j),
    ensures
        find_from(s, m, from) == Some(q),
{
    lemma_find_from(s, m, from);
}

proof fn lemma_find_nothing(s: Seq<char>, m: Seq<char>, from: int)
    requires
        0 <= from,
        forall|j: int| from <= j ==> !#[trigger] occurs_at(s, m, j),
    ensures
        find_from(s, m, from) is None,
{
    lemma_find_from(s, m, from);
}

proof fn lemma_escape_has_no_lt(s: Seq<char>)
    ensures
        forall|i: int| 0 <= i < spec_xml_escape(s).len() ==> #[trigger] spec_xml_escape(s)[i] != '<',
    decreases s.len(),
{
    if s.len() > 0 {
        lemma_escape_has_no_lt(s.drop_last());
        reveal_strlit("&amp;");
        reveal_strlit("&lt;");
        reveal_strlit("&gt;");
        reveal_strlit("&quot;");
        let a = spec_xml_escape(s.drop_last());
        let e = xml_escape_char(s.last());
        assert forall|i: int| 0 <= i < spec_xml_escape(s).len() implies #[trigger] spec_xml_escape(
            s,
        )[i] != '<' by {
            if i < a.len() {
                assert(spec_xml_escape(s)[i] == a[i]);
            } else {
                assert(spec_xml_escape(s)[i] == e[i - a.len()]);
            }
        }
    }
}

proof fn lemma_decimal_digits(n: nat)
    ensures
        decimal(n).len() >= 1,
        all_digits(decimal(n)),
        digits_value(decimal(n)) == n,
    decreases n,
{
    let d = decimal(n);
    vstd::arithmetic::div_mod::lemma_fundamental_div_mod(n as int, 10);
    assert(((48 + n % 10) as char) as u32 == 48 + n % 10);
    if n >= 10 {
        lemma_decimal_digits(n / 10);
        let a = decimal(n / 10);
        assert(d.drop_last() =~= a);
        assert(d.last() == digit_char(n % 10));
        assert forall|i: int| 0 <= i < d.len() implies is_digit(#[trigger] d[i]) by {
            if i < a.len() {
                assert(d[i] == a[i]);
            }
        }
        assert(digits_value(d) == digits_value(a) * 10 + ((d.last() as u32) - 48) as nat);
    } else {
        assert(d.drop_last() =~= Seq::<char>::empty());
        assert(d.last() == digit_char(n));
        assert(digits_value(d) == digits_value(d.drop_last()) * 10 + ((d.last() as u32) - 48) as nat);
    }
}

proof fn lemma_digits_parse(d: Seq<char>, n: nat)
    requires
        d.len() >= 1,
        all_digits(d),
        digits_value(d) == n,
        n <= u64::MAX,
    ensures
        trim(d) == d,
        parse_u64(d) == Some(n as u64),
{
    assert(!is_ws(d[0]));
    assert(!is_ws(d.last()));
    assert(d.skip(0) =~= d);
    assert(d.take(d.len() as int) =~= d);
}

proof fn lemma_head_breaks_key()
    ensures
        starts_break("<?xml version=\"1.0\" encoding=\"UTF-8\"?>\n<!DOCTYPE plist PUBLIC \"-//Apple//DTD PLIST 1.0//EN\" \"http://www.apple.com/DTDs/PropertyList-1.0.dtd\">\n<plist version=\"1.0\">\n<dict>\n    <key>Label</key>\n    <string>"@, "<key>StartInterval</key>"@),
{
    reveal_strlit("<?xml version=\"1.0\" encoding=\"UTF-8\"?>\n<!DOCTYPE plist PUBLIC \"-//Apple//DTD PLIST 1.0//EN\" \"http://www.apple.com/DTDs/PropertyList-1.0.dtd\">\n<plist version=\"1.0\">\n<dict>\n    <key>Label</key>\n    <string>");
    reveal_strlit("<key>StartInterval</key>");
    let l = "<?xml version=\"1.0\" encoding=\"UTF-8\"?>\n<!DOCTYPE plist PUBLIC \"-//Apple//DTD PLIST 1.0//EN\" \"http://www.apple.com/DTDs/PropertyList-1.0.dtd\">\n<plist version=\"1.0\">\n<dict>\n    <key>Label</key>\n    <string>"@;
    let m = "<key>StartInterval</key>"@;
    assert forall|j: int| 0 <= j < l.len() && #[trigger] l[j] == m[0] implies exists|u: int|
        0 <= u < m.len() && j + u < l.len() && #[trigger] l[j + u] != m[u] by {
        assert(l[j + 1] != m[1] || l[j + 5] != m[5] || l[j + 8] != m[8]);
    }
}

proof fn lemma_label_breaks_key()
    ensures
        starts_break("com.glomeris.monitor"@, "<key>StartInterval</key>"@),
{
    reveal_strlit("com.glomeris.monitor");
    reveal_strlit("<key>StartInterval</key>");
    let l = "com.glomeris.monitor"@;
    let m = "<key>StartInterval</key>"@;
    assert forall|j: int| 0 <= j < l.len() && #[trigger] l[j] == m[0] implies exists|u: int|
        0 <= u < m.len() && j + u < l.len() && #[trigger] l[j + u] != m[u] by {
        assert(l[j + 1] != m[1] || l[j + 5] != m[5] || l[j + 8] != m[8]);
    }
}

proof fn lemma_args_breaks_key()
    ensures
        starts_break("</string>\n    <key>ProgramArguments</key>\n    <array>\n        <string>"@, "<key>StartInterval</key>"@),
{
    reveal_strlit("</string>\n    <key>ProgramArguments</key>\n    <array>\n        <string>");
    reveal_strlit("<key>StartInterval</key>");
    let l = "</string>\n    <key>ProgramArguments</key>\n    <array>\n        <string>"@;
    let m = "<key>StartInterval</key>"@;
    assert forall|j: int| 0 <= j < l.len() && #[trigger] l[j] == m[0] implies exists|u: int|
        0 <= u < m.len() && j + u < l.len() && #[trigger] l[j + u] != m[u] by {
        assert(l[j + 1] != m[1] || l[j + 5] != m[5] || l[j + 8] != m[8]);
    }
}

proof fn lemma_daemon_breaks_key()
    ensures
        starts_break("</string>\n        <string>daemon</string>\n        <string>run</string>\n    </array>\n    "@, "<key>StartInterval</key>"@),
{
    reveal_strlit("</string>\n        <string>daemon</string>\n        <string>run</string>\n    </array>\n    ");
    reveal_strlit("<key>StartInterval</key>");
    let l = "</string>\n        <string>daemon</string>\n        <string>run</string>\n    </array>\n    "@;
    let m = "<key>StartInterval</key>"@;
    assert forall|j: int| 0 <= j < l.len() && #[trigger] l[j] == m[0] implies exists|u: int|
        0 <= u < m.len() && j + u < l.len() && #[trigger] l[j + u] != m[u] by {
        assert(l[j + 1] != m[1] || l[j + 5] != m[5] || l[j + 8] != m[8]);
    }
}

proof fn lemma_tail_a_breaks_key()
    ensures
        starts_break("</integer>\n    <key>RunAtLoad</key>\n    <true/>\n    <key>StandardOutPath</key>\n    <string>"@, "<key>StartInterval</key>"@),
{
    reveal_strlit("</integer>\n    <key>RunAtLoad</key>\n    <true/>\n    <key>StandardOutPath</key>\n    <string>");
    reveal_strlit("<key>StartInterval</key>");
    let l = "</integer>\n    <key>RunAtLoad</key>\n    <true/>\n    <key>StandardOutPath</key>\n    <string>"@;
    let m = "<key>StartInterval</key>"@;
    assert forall|j: int| 0 <= j < l.len() && #[trigger] l[j] == m[0] implies exists|u: int|
        0 <= u < m.len() && j + u < l.len() && #[trigger] l[j + u] != m[u] by {
        assert(l[j + 1] != m[1] || l[j + 5] != m[5] || l[j + 8] != m[8]);
    }
}

proof fn lemma_tail_b_breaks_key()
    ensures
        starts_break("</string>\n    <key>StandardErrorPath</key>\n    <string>"@, "<key>StartInterval</key>"@),
{
    reveal_strlit("</string>\n    <key>StandardErrorPath</key>\n    <string>");
    reveal_strlit("<key>StartInterval</key>");
    let l = "</string>\n    <key>StandardErrorPath</key>\n    <string>"@;
    let m = "<key>StartInterval</key>"@;
    assert forall|j: int| 0 <= j < l.len() && #[trigger] l[j] == m[0] implies exists|u: int|
        0 <= u < m.len() && j + u < l.len() && #[trigger] l[j + u] != m[u] by {
        assert(l[j + 1] != m[1] || l[j + 5] != m[5] || l[j + 8] != m[8]);
    }
}

proof fn lemma_tail_c_breaks_key()
    ensures
        starts_break("</string>\n</dict>\n</plist>\n"@, "<key>StartInterval</key>"@),
{
    reveal_strlit("</string>\n</dict>\n</plist>\n");
    reveal_strlit("<key>StartInterval</key>");
    let l = "</string>\n</dict>\n</plist>\n"@;
    let m = "<key>StartInterval</key>"@;
    assert forall|j: int| 0 <= j < l.len() && #[trigger] l[j] == m[0] implies exists|u: int|
        0 <= u < m.len() && j + u < l.len() && #[trigger] l[j + u] != m[u] by {
        assert(l[j + 1] != m[1] || l[j + 5] != m[5] || l[j + 8] != m[8]);
    }
}

proof fn lemma_interval_open_breaks_key()
    ensures
        starts_break("\n    <integer>"@, "<key>StartInterval</key>"@),
{
    reveal_strlit("\n    <integer>");
    reveal_strlit("<key>StartInterval</key>");
    let l = "\n    <integer>"@;
    let m = "<key>StartInterval</key>"@;
    assert forall|j: int| 0 <= j < l.len() && #[trigger] l[j] == m[0] implies exists|u: int|
        0 <= u < m.len() && j + u < l.len() && #[trigger] l[j + u] != m[u] by {
        assert(l[j + 1] != m[1]);
    }
}

proof fn lemma_tail_a_breaks_integer()
    ensures
        starts_break("</integer>\n    <key>RunAtLoad</key>\n    <true/>\n    <key>StandardOutPath</key>\n    <string>"@, "<integer>"@),
{
    reveal_strlit("</integer>\n    <key>RunAtLoad</key>\n    <true/>\n    <key>StandardOutPath</key>\n    <string>");
    reveal_strlit("<integer>");
    let l = "</integer>\n    <key>RunAtLoad</key>\n    <true/>\n    <key>StandardOutPath</key>\n    <string>"@;
    let m = "<integer>"@;
    assert forall|j: int| 0 <= j < l.len() && #[trigger] l[j] == m[0] implies exists|u: int|
        0 <= u < m.len() && j + u < l.len() && #[trigger] l[j + u] != m[u] by {
        assert(l[j + 1] != m[1]);
    }
}

proof fn lemma_tail_b_breaks_integer()
    ensures
        starts_break("</string>\n    <key>StandardErrorPath</key>\n    <string>"@, "<integer>"@),
{
    reveal_strlit("</string>\n    <key>StandardErrorPath</key>\n    <string>");
    reveal_strlit("<integer>");
    let l = "</string>\n    <key>StandardErrorPath</key>\n    <string>"@;
    let m = "<integer>"@;
    assert forall|j: int| 0 <= j < l.len() && #[trigger] l[j] == m[0] implies exists|u: int|
        0 <= u < m.len() && j + u < l.len() && #[trigger] l[j + u] != m[u] by {
        assert(l[j + 1] != m[1]);
    }
}

proof fn lemma_tail_c_breaks_integer()
    ensures
        starts_break("</string>\n</dict>\n</plist>\n"@, "<integer>"@),
{
    reveal_strlit("</string>\n</dict>\n</plist>\n");
    reveal_strlit("<integer>");
    let l = "</string>\n</dict>\n</plist>\n"@;
    let m = "<integer>"@;
    assert forall|j: int| 0 <= j < l.len() && #[trigger] l[j] == m[0] implies exists|u: int|
        0 <= u < m.len() && j + u < l.len() && #[trigger] l[j + u] != m[u] by {
        assert(l[j + 1] != m[1]);
    }
}

proof fn lemma_split_at_unique(pre: Seq<char>, m: Seq<char>, post: Seq<char>)
    requires
        m.len() > 0,
        starts_break(pre, m),
        starts_break(post, m),
    ensures
        occurs_once(pre + m + post, m),
        split_second(pre + m + post, m) == Some(post),
{
    let x = pre + m + post;
    lemma_break_before(pre, m + post, m);
    assert(x =~= pre + (m + post));
    lemma_break_after(pre + m, post, m);
    let q = pre.len() as int;
    assert(x.subrange(q, q + m.len()) =~= m);
    lemma_find_first(x, m, 0, q);
    lemma_find_nothing(x, m, q + m.len());
    assert(x.subrange(q + m.len(), x.len() as int) =~= post);
}

proof fn lemma_split_first_at(a: Seq<char>, m: Seq<char>, b: Seq<char>)
    requires
        m.len() > 0,
        starts_break(a, m),
        occurs_at(b, m, 0),
    ensures
        split_first(a + b, m) == a,
{
    lemma_break_before(a, b, m);
    let x = a + b;
    assert(x.subrange(a.len() as int, (a.len() + m.len()) as int) =~= b.subrange(0, m.len() as int));
    lemma_find_first(x, m, 0, a.len() as int);
    assert(x.subrange(0, a.len() as int) =~= a);
}

proof fn lemma_no_lt_breaks(s: Seq<char>, m: Seq<char>)
    requires
        m.len() > 0,
        m[0] == '<',
        forall|i: int| 0 <= i < s.len() ==> #[trigger] s[i] != '<',
    ensures
        starts_break(s, m),
{
    lemma_break_without_first(s, m);
}

/// The plist up to the interval marker.
spec fn plist_before_key(e1: Seq<char>) -> Seq<char> {
    "<?xml version=\"1.0\" encoding=\"UTF-8\"?>\n<!DOCTYPE plist PUBLIC \"-//Apple//DTD PLIST 1.0//EN\" \"http://www.apple.com/DTDs/PropertyList-1.0.dtd\">\n<plist version=\"1.0\">\n<dict>\n    <key>Label</key>\n    <string>"@ + "com.glomeris.monitor"@ + "</string>\n    <key>ProgramArguments</key>\n    <array>\n        <string>"@ + e1 + "</string>\n        <string>daemon</string>\n        <string>run</string>\n    </array>\n    "@
}

/// The plist after the interval value.
spec fn plist_after_value(e2: Seq<char>, e3: Seq<char>) -> Seq<char> {
    "</integer>\n    <key>RunAtLoad</key>\n    <true/>\n    <key>StandardOutPath</key>\n    <string>"@ + e2 + "</string>\n    <key>StandardErrorPath</key>\n    <string>"@ + e3 + "</string>\n</dict>\n</plist>\n"@
}

proof fn lemma_before_key_breaks(e1: Seq<char>)
    requires
        forall|i: int| 0 <= i < e1.len() ==> #[trigger] e1[i] != '<',
    ensures
        starts_break(plist_before_key(e1), "<key>StartInterval</key>"@),
{
    let m = "<key>StartInterval</key>"@;
    reveal_strlit("<key>StartInterval</key>");
    lemma_head_breaks_key();
    lemma_label_breaks_key();
    lemma_args_breaks_key();
    lemma_daemon_breaks_key();
    lemma_no_lt_breaks(e1, m);
    lemma_break_concat("<?xml version=\"1.0\" encoding=\"UTF-8\"?>\n<!DOCTYPE plist PUBLIC \"-//Apple//DTD PLIST 1.0//EN\" \"http://www.apple.com/DTDs/PropertyList-1.0.dtd\">\n<plist version=\"1.0\">\n<dict>\n    <key>Label</key>\n    <string>"@, "com.glomeris.monitor"@, m);
    lemma_break_concat("<?xml version=\"1.0\" encoding=\"UTF-8\"?>\n<!DOCTYPE plist PUBLIC \"-//Apple//DTD PLIST 1.0//EN\" \"http://www.apple.com/DTDs/PropertyList-1.0.dtd\">\n<plist version=\"1.0\">\n<dict>\n    <key>Label</key>\n    <string>"@ + "com.glomeris.monitor"@, "</string>\n    <key>ProgramArguments</key>\n    <array>\n        <string>"@, m);
    lemma_break_concat("<?xml version=\"1.0\" encoding=\"UTF-8\"?>\n<!DOCTYPE plist PUBLIC \"-//Apple//DTD PLIST 1.0//EN\" \"http://www.apple.com/DTDs/PropertyList-1.0.dtd\">\n<plist version=\"1.0\">\n<dict>\n    <key>Label</key>\n    <string>"@ + "com.glomeris.monitor"@ + "</string>\n    <key>ProgramArguments</key>\n    <array>\n        <string>"@, e1, m);
    lemma_break_concat("<?xml version=\"1.0\" encoding=\"UTF-8\"?>\n<!DOCTYPE plist PUBLIC \"-//Apple//DTD PLIST 1.0//EN\" \"http://www.apple.com/DTDs/PropertyList-1.0.dtd\">\n<plist version=\"1.0\">\n<dict>\n    <key>Label</key>\n    <string>"@ + "com.glomeris.monitor"@ + "</string>\n    <key>ProgramArguments</key>\n    <array>\n        <string>"@ + e1, "</string>\n        <string>daemon</string>\n        <string>run</string>\n    </array>\n    "@, m);
}

proof fn lemma_after_value_breaks(d: Seq<char>, e2: Seq<char>, e3: Seq<char>, m: Seq<char>)
    requires
        m.len() > 0,
        m[0] == '<',
        starts_break("</integer>\n    <key>RunAtLoad</key>\n    <true/>\n    <key>StandardOutPath</key>\n    <string>"@, m),
        starts_break("</string>\n    <key>StandardErrorPath</key>\n    <string>"@, m),
        starts_break("</string>\n</dict>\n</plist>\n"@, m),
        forall|i: int| 0 <= i < d.len() ==> #[trigger] d[i] != '<',
        forall|i: int| 0 <= i < e2.len() ==> #[trigger] e2[i] != '<',
        forall|i: int| 0 <= i < e3.len() ==> #[trigger] e3[i] != '<',
    ensures
        starts_break(d + plist_after_value(e2, e3), m),
{
    lemma_no_lt_breaks(d, m);
    lemma_no_lt_breaks(e2, m);
    lemma_no_lt_breaks(e3, m);
    lemma_break_concat("</integer>\n    <key>RunAtLoad</key>\n    <true/>\n    <key>StandardOutPath</key>\n    <string>"@, e2, m);
    lemma_break_concat("</integer>\n    <key>RunAtLoad</key>\n    <true/>\n    <key>StandardOutPath</key>\n    <string>"@ + e2, "</string>\n    <key>StandardErrorPath</key>\n    <string>"@, m);
    lemma_break_concat("</integer>\n    <key>RunAtLoad</key>\n    <true/>\n    <key>StandardOutPath</key>\n    <string>"@ + e2 + "</string>\n    <key>StandardErrorPath</key>\n    <string>"@, e3, m);
    lemma_break_concat("</integer>\n    <key>RunAtLoad</key>\n    <true/>\n    <key>StandardOutPath</key>\n    <string>"@ + e2 + "</string>\n    <key>StandardErrorPath</key>\n    <string>"@ + e3, "</string>\n</dict>\n</plist>\n"@, m);
    lemma_break_concat(d, plist_after_value(e2, e3), m);
}

proof fn lemma_plist_shape(program: Seq<char>, interval: u64, log_dir: Seq<char>)
    ensures
        spec_generate_plist(program, interval, log_dir) == plist_before_key(spec_xml_escape(program))
            + "<key>StartInterval</key>"@ + ("\n    "@ + "<integer>"@ + (decimal(interval as nat) + plist_after_value(
            spec_xml_escape(path_join(log_dir, "monitor.log"@)),
            spec_xml_escape(path_join(log_dir, "monitor.err.log"@)),
        ))),
{
    reveal_strlit("<key>StartInterval</key>");
    reveal_strlit("<integer>");
    reveal_strlit("</string>\n        <string>daemon</string>\n        <string>run</string>\n    </array>\n    <key>StartInterval</key>\n    <integer>");
    reveal_strlit("</string>\n        <string>daemon</string>\n        <string>run</string>\n    </array>\n    ");
    reveal_strlit("\n    ");
    assert("</string>\n        <string>daemon</string>\n        <string>run</string>\n    </array>\n    <key>StartInterval</key>\n    <integer>"@ =~= "</string>\n        <string>daemon</string>\n        <string>run</string>\n    </array>\n    "@ + "<key>StartInterval</key>"@ + "\n    "@ + "<integer>"@);
    assert(spec_generate_plist(program, interval, log_dir) =~= plist_before_key(spec_xml_escape(program))
        + "<key>StartInterval</key>"@ + ("\n    "@ + "<integer>"@ + (decimal(interval as nat) + plist_after_value(
        spec_xml_escape(path_join(log_dir, "monitor.log"@)),
        spec_xml_escape(path_join(log_dir, "monitor.err.log"@)),
    ))));
}

/// Reading the interval back out of a generated plist gives the interval
/// it was generated with, whatever the program path and log directory:
/// escaping keeps `<` out of both, so the interval marker occurs exactly
/// once.
pub proof fn lemma_interval_read_back(program: Seq<char>, interval: u64, log_dir: Seq<char>)
    ensures
        spec_extract_start_interval(spec_generate_plist(program, interval, log_dir)) == Some(interval),
{
    let m = "<key>StartInterval</key>"@;
    let i_open = "<integer>"@;
    let i_close = "</integer>"@;
    let w = "\n    "@;
    reveal_strlit("<key>StartInterval</key>");
    reveal_strlit("<integer>");
    reveal_strlit("</integer>");
    reveal_strlit("\n    ");
    reveal_strlit("\n    <integer>");
    reveal_strlit("</integer>\n    <key>RunAtLoad</key>\n    <true/>\n    <key>StandardOutPath</key>\n    <string>");
    let e1 = spec_xml_escape(program);
    let e2 = spec_xml_escape(path_join(log_dir, "monitor.log"@));
    let e3 = spec_xml_escape(path_join(log_dir, "monitor.err.log"@));
    let d = decimal(interval as nat);
    lemma_escape_has_no_lt(program);
    lemma_escape_has_no_lt(path_join(log_dir, "monitor.log"@));
    lemma_escape_has_no_lt(path_join(log_dir, "monitor.err.log"@));
    lemma_decimal_digits(interval as nat);
    assert forall|i: int| 0 <= i < d.len() implies #[trigger] d[i] != '<' by {
        assert(is_digit(d[i]));
    }
    let tail = plist_after_value(e2, e3);
    let rest = d + tail;
    let post = w + i_open + rest;
    lemma_plist_shape(program, interval, log_dir);
    // the interval marker occurs once, and what follows it is `post`
    lemma_before_key_breaks(e1);
    lemma_tail_a_breaks_key();
    lemma_tail_b_breaks_key();
    lemma_tail_c_breaks_key();
    lemma_after_value_breaks(d, e2, e3, m);
    lemma_interval_open_breaks_key();
    assert("\n    <integer>"@ =~= w + i_open);
    lemma_break_concat(w + i_open, rest, m);
    lemma_split_at_unique(plist_before_key(e1), m, post);
    // the opening tag follows the white space, and nothing repeats it
    lemma_no_lt_breaks(w, i_open);
    lemma_tail_a_breaks_integer();
    lemma_tail_b_breaks_integer();
    lemma_tail_c_breaks_integer();
    lemma_after_value_breaks(d, e2, e3, i_open);
    lemma_split_at_unique(w, i_open, rest);
    // the value runs up to the closing tag that opens the tail
    lemma_no_lt_breaks(d, i_close);
    assert(tail.subrange(0, i_close.len() as int) =~= i_close);
    lemma_split_first_at(d, i_close, tail);
    lemma_digits_parse(d, interval as nat);
}

} // verus!
