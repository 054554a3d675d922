//! Progress feedback while recording and transcribing: which way the status
//! is shown, the text it shows, and the notification bookkeeping.
//!
//! The status can be typed into the target field and deleted again, or shown
//! as a desktop notification. Inline typing relies on sending exactly as
//! many backspaces as characters typed, which goes wrong the moment the
//! target field autocompletes or reformats; notifications sidestep that.
use vstd::prelude::*;

use crate::config::PasteMode;
use crate::literal::{all_digits, is_digit};
use crate::text::{chars_of, find_char_in, occurs_at, push_range, range_eq, trim, trim_string};

verus! {

/// What the user asked for in rhisperrc.
#[derive(Debug, Clone, Copy, PartialEq, Eq, Structural)]
pub enum Setting {
    Auto,
    Inline,
    Notify,
    Off,
}

/// What that resolves to for this run: `Auto` is gone by then.
#[derive(Debug, Clone, Copy, PartialEq, Eq, Structural)]
pub enum Mode {
    Inline,
    Notify,
    Off,
}

/// How a setting resolves.
pub open spec fn resolved(setting: Setting, paste_mode: PasteMode, notifications_available: bool) -> Mode {
    match setting {
        Setting::Inline => Mode::Inline,
        Setting::Notify => Mode::Notify,
        Setting::Off => Mode::Off,
        Setting::Auto => if paste_mode != PasteMode::Type && notifications_available {
            Mode::Notify
        } else {
            Mode::Inline
        },
    }
}

/// Resolves `auto` to notifications whenever the paste mode is one of the
/// clipboard ones and notifications are actually available.
///
/// The paste mode matters because it decides how the placeholder would be
/// removed again: in `type` mode the text is typed key by key and the
/// backspaces that delete it are just as reliable as the typing was, while
/// the clipboard modes paste in one go into a field that may react to it,
/// leaving the backspace count a guess.
pub fn resolve(setting: Setting, paste_mode: PasteMode, notifications_available: bool) -> (m: Mode)
    ensures
        m == resolved(setting, paste_mode, notifications_available),
{
    match setting {
        Setting::Inline => Mode::Inline,
        Setting::Notify => Mode::Notify,
        Setting::Off => Mode::Off,
        Setting::Auto => {
            let typing = match paste_mode {
                PasteMode::Type => true,
                _ => false,
            };
            if !typing && notifications_available {
                Mode::Notify
            } else {
                Mode::Inline
            }
        },
    }
}

/// The index of the first `${` in `s`, or `s.len()` when there is none.
pub open spec fn find_open(s: Seq<char>) -> int
    decreases s.len(),
{
    if s.len() < 2 {
        s.len() as int
    } else if s[0] == '$' && s[1] == '{' {
        0
    } else {
        1 + find_open(s.drop_first())
    }
}

/// The name of the one variable a placeholder may hold.
pub open spec fn device_name() -> Seq<char> {
    seq!['d', 'e', 'v', 'i', 'c', 'e']
}

/// `template` with every `${device}` replaced by `device`. Any other
/// `${name}` stays as it is, and so does an unterminated `${` with all that
/// follows it.
pub open spec fn expanded(template: Seq<char>, device: Seq<char>) -> Seq<char>
    decreases template.len(),
{
    let start = find_open(template);
    if start >= template.len() {
        template
    } else {
        let after = template.skip(start + 2);
        let end = crate::text::find_char(after, '}');
        if end >= after.len() {
            template
        } else {
            proof {
                lemma_find_open_bounds(template);
                crate::text::lemma_find_char_bounds(after, '}');
            }
            let name = after.take(end);
            let piece = if name == device_name() {
                device
            } else {
                template.subrange(start, start + 2 + end + 1)
            };
            template.take(start) + piece + expanded(after.skip(end + 1), device)
        }
    }
}

/// `find_open` is at most the length, and points at `${` when it is less.
pub proof fn lemma_find_open_bounds(s: Seq<char>)
    ensures
        0 <= find_open(s) <= s.len(),
        find_open(s) < s.len() ==> find_open(s) + 1 < s.len() && s[find_open(s)] == '$' && s[find_open(s) + 1] == '{',
        forall|k: int| 0 <= k < find_open(s) && k + 1 < s.len() ==> !(#[trigger] s[k] == '$' && s[k + 1] == '{'),
    decreases s.len(),
{
    if s.len() >= 2 && !(s[0] == '$' && s[1] == '{') {
        lemma_find_open_bounds(s.drop_first());
        assert forall|k: int| 0 <= k < find_open(s) && k + 1 < s.len() implies !(#[trigger] s[k] == '$' && s[k + 1] == '{') by {
            if k > 0 {
                assert(s[k] == s.drop_first()[k - 1]);
                assert(s[k + 1] == s.drop_first()[k]);
            }
        }
    }
}

proof fn lemma_find_open_is(s: Seq<char>, j: int)
    requires
        0 <= j <= s.len(),
        j < s.len() ==> j + 1 < s.len() && s[j] == '$' && s[j + 1] == '{',
        forall|k: int| 0 <= k < j && k + 1 < s.len() ==> !(#[trigger] s[k] == '$' && s[k + 1] == '{'),
    ensures
        find_open(s) == j,
    decreases s.len(),
{
    if s.len() >= 2 && !(s[0] == '$' && s[1] == '{') {
        assert(j > 0);
        assert forall|k: int| 0 <= k < j - 1 && k + 1 < s.drop_first().len() implies !(
        #[trigger] s.drop_first()[k] == '$' && s.drop_first()[k + 1] == '{') by {
            assert(s.drop_first()[k] == s[k + 1]);
            assert(s.drop_first()[k + 1] == s[k + 2]);
        }
        if j < s.len() {
            assert(s.drop_first()[j - 1] == s[j]);
            assert(s.drop_first()[j] == s[j + 1]);
        }
        lemma_find_open_is(s.drop_first(), j - 1);
    } else if s.len() >= 2 {
        if j > 0 {
            assert(!(s[0] == '$' && s[1] == '{'));
        }
    }
}

/// The first `${` in `v[lo..hi]`, counted from `lo`, or `hi - lo`.
fn find_open_in(v: &Vec<char>, lo: usize, hi: usize) -> (r: usize)
    requires
        lo <= hi <= v.len(),
    ensures
        r == find_open(v@.subrange(lo as int, hi as int)),
        r <= hi - lo,
{
    let ghost s = v@.subrange(lo as int, hi as int);
    let mut i = lo;
    while hi - i >= 2 && !(v[i] == '$' && v[i + 1] == '{')
        invariant
            lo <= i <= hi <= v.len(),
            forall|k: int| lo <= k < i && k + 1 < hi ==> !(#[trigger] v@[k] == '$' && v@[k + 1] == '{'),
        decreases hi - i,
    {
        i = i + 1;
    }
    let r = if hi - i >= 2 {
        i - lo
    } else {
        hi - lo
    };
    proof {
        assert forall|k: int| 0 <= k < r && k + 1 < s.len() implies !(#[trigger] s[k] == '$' && s[k + 1] == '{') by {
            assert(s[k] == v@[lo + k]);
            assert(s[k + 1] == v@[lo + k + 1]);
        }
        if r < s.len() {
            assert(s[r as int] == v@[i as int]);
            assert(s[r + 1] == v@[i + 1]);
        }
        lemma_find_open_is(s, r as int);
    }
    r
}

/// Substitutes `${...}` variables in a placeholder string.
///
/// Only `${device}` is recognised; anything else is left standing verbatim,
/// so a stray `${` in a status text cannot swallow the rest of the line or
/// turn into an empty string the user cannot explain.
pub fn expand(template: &str, device: &str) -> (r: String)
    ensures
        r@ == expanded(template@, device@),
{
    let v = chars_of(template);
    let d = chars_of(device);
    let n = v.len();
    let name = vec!['d', 'e', 'v', 'i', 'c', 'e'];
    assert(name@ =~= device_name());
    let mut out = String::new();
    let mut pos: usize = 0;
    proof {
        assert(v@.subrange(0, n as int) =~= v@);
    }
    while pos < n
        invariant
            v@ == template@,
            d@ == device@,
            name@ == device_name(),
            n == v@.len(),
            pos <= n,
            out@ + expanded(v@.subrange(pos as int, n as int), device@) == expanded(template@, device@),
        decreases n - pos,
    {
        let ghost rest = v@.subrange(pos as int, n as int);
        let start = find_open_in(&v, pos, n);
        if start == n - pos {
            push_range(&mut out, &v, pos, n);
            proof {
                assert(expanded(rest, device@) == rest);
                assert(v@.subrange(n as int, n as int) =~= Seq::<char>::empty());
                assert(expanded(Seq::<char>::empty(), device@) == Seq::<char>::empty());
            }
            pos = n;
        } else {
            proof {
                lemma_find_open_bounds(rest);
            }
            let after = pos + start + 2;
            let end = find_char_in(&v, after, n, '}');
            proof {
                assert(rest.skip(start + 2) =~= v@.subrange(after as int, n as int));
            }
            if end == n - after {
                push_range(&mut out, &v, pos, n);
                proof {
                    assert(expanded(rest, device@) == rest);
                    assert(v@.subrange(n as int, n as int) =~= Seq::<char>::empty());
                    assert(expanded(Seq::<char>::empty(), device@) == Seq::<char>::empty());
                }
                pos = n;
            } else {
                proof {
                    crate::text::lemma_find_char_bounds(v@.subrange(after as int, n as int), '}');
                }
                push_range(&mut out, &v, pos, pos + start);
                let known = range_eq(&v, after, after + end, &name);
                if known {
                    push_range(&mut out, &d, 0, d.len());
                    proof {
                        assert(d@.subrange(0, d@.len() as int) =~= d@);
                    }
                } else {
                    push_range(&mut out, &v, pos + start, after + end + 1);
                }
                proof {
                    let after_s = rest.skip(start + 2);
                    assert(rest.take(start as int) =~= v@.subrange(pos as int, pos + start));
                    assert(after_s.take(end as int) =~= v@.subrange(after as int, after + end));
                    assert(rest.subrange(start as int, start + 2 + end + 1) =~= v@.subrange(
                        pos + start,
                        after + end + 1,
                    ));
                    assert(after_s.skip(end + 1) =~= v@.subrange(after + end + 1, n as int));
                }
                pos = after + end + 1;
            }
        }
    }
    proof {
        assert(v@.subrange(n as int, n as int) =~= Seq::<char>::empty());
        assert(out@ + Seq::<char>::empty() =~= out@);
    }
    out
}

/// The view of an optional string.
pub open spec fn opt_view(o: Option<String>) -> Option<Seq<char>> {
    match o {
        Some(s) => Some(s@),
        None => None,
    }
}

/// The views of a list of strings.
pub open spec fn string_views(v: Seq<String>) -> Seq<Seq<char>> {
    v.map_values(|s: String| s@)
}

/// The notification id stored by an earlier step: the stored text trimmed,
/// when that is a non-empty run of ASCII digits.
pub open spec fn stored_id(contents: Seq<char>) -> Option<Seq<char>> {
    let t = trim(contents);
    if t.len() > 0 && all_digits(t) {
        Some(t)
    } else {
        None
    }
}

/// The notification id held in the id file's `contents`, if it is one.
pub fn notification_id(contents: &str) -> (r: Option<String>)
    ensures
        opt_view(r) == stored_id(contents@),
{
    let t = trim_string(contents);
    let v = chars_of(t.as_str());
    let mut i: usize = 0;
    while i < v.len()
        invariant
            i <= v@.len(),
            v@ == t@,
            t@ == trim(contents@),
            forall|k: int| 0 <= k < i ==> is_digit(#[trigger] v@[k]),
        decreases v.len() - i,
    {
        let u = v[i] as u32;
        if !(48 <= u && u <= 57) {
            assert(!is_digit(t@[i as int]));
            assert(!all_digits(t@));
            assert(!all_digits(t@));
            return None;
        }
        i = i + 1;
    }
    if v.len() == 0 {
        None
    } else {
        Some(t)
    }
}

/// The `notify-send` arguments that post `message`: persistent bubbles stay
/// until dismissed, others expire after three seconds, and an earlier
/// bubble of the same dictation is replaced.
pub open spec fn notify_args_of(message: Seq<char>, persistent: bool, previous: Option<Seq<char>>) -> Seq<Seq<char>> {
    seq!["--print-id"@, "-i"@, "audio-input-microphone"@, "-t"@, if persistent {
        "0"@
    } else {
        "3000"@
    }] + match previous {
        Some(id) => seq!["-r"@, id],
        None => Seq::empty(),
    } + seq!["rhisper"@, message]
}

fn push_literal(args: &mut Vec<String>, s: &str)
    ensures
        string_views(final(args)@) == string_views(old(args)@).push(s@),
{
    args.push(String::from_str(s));
    assert(string_views(args@) =~= string_views(old(args)@).push(s@));
}

fn push_text(args: &mut Vec<String>, s: String)
    ensures
        string_views(final(args)@) == string_views(old(args)@).push(s@),
{
    let ghost v = s@;
    args.push(s);
    assert(string_views(args@) =~= string_views(old(args)@).push(v));
}

/// The arguments for `notify-send` that post `message`.
pub fn notify_args(message: &str, persistent: bool, previous: Option<String>) -> (r: Vec<String>)
    ensures
        string_views(r@) == notify_args_of(message@, persistent, opt_view(previous)),
{
    let mut r: Vec<String> = Vec::new();
    push_literal(&mut r, "--print-id");
    push_literal(&mut r, "-i");
    push_literal(&mut r, "audio-input-microphone");
    push_literal(&mut r, "-t");
    push_literal(&mut r, if persistent { "0" } else { "3000" });
    let ghost prev_view = opt_view(previous);
    match previous {
        Some(id) => {
            push_literal(&mut r, "-r");
            push_text(&mut r, id);
        },
        None => {},
    }
    push_literal(&mut r, "rhisper");
    push_literal(&mut r, message);
    assert(string_views(r@) =~= notify_args_of(message@, persistent, prev_view));
    r
}

/// What to remember after `notify-send` ran.
#[derive(Debug, Clone, PartialEq, Eq)]
pub enum NotifyFollowUp {
    /// Keep this id, so the next step replaces the bubble and a dismissal
    /// can close it.
    Store(String),
    /// Forget any stored id.
    Forget,
}

/// The follow-up to a `notify-send` run: a persistent bubble's printed id is
/// kept; a failed run, an empty id, or a self-expiring bubble (whose id may
/// belong to someone else's notification by the time it would be closed)
/// clears the stored id.
pub fn after_notify(succeeded: bool, persistent: bool, printed: &str) -> (r: NotifyFollowUp)
    ensures
        match r {
            NotifyFollowUp::Store(id) => succeeded && persistent && id@ == trim(printed@) && id@.len()
                > 0,
            NotifyFollowUp::Forget => !(succeeded && persistent && trim(printed@).len() > 0),
        },
{
    if !succeeded {
        return NotifyFollowUp::Forget;
    }
    let id = trim_string(printed);
    if persistent && !id.as_str().is_empty() {
        NotifyFollowUp::Store(id)
    } else {
        NotifyFollowUp::Forget
    }
}

/// The `gdbus` arguments that close notification `id`.
pub open spec fn dismiss_args_of(id: Seq<char>) -> Seq<Seq<char>> {
    seq![
        "call"@,
        "--session"@,
        "--dest"@,
        "org.freedesktop.Notifications"@,
        "--object-path"@,
        "/org/freedesktop/Notifications"@,
        "--method"@,
        "org.freedesktop.Notifications.CloseNotification"@,
        id,
    ]
}

/// The arguments for `gdbus` that close notification `id`.
pub fn dismiss_args(id: String) -> (r: Vec<String>)
    ensures
        string_views(r@) == dismiss_args_of(id@),
{
    let ghost idv = id@;
    let mut r: Vec<String> = Vec::new();
    push_literal(&mut r, "call");
    push_literal(&mut r, "--session");
    push_literal(&mut r, "--dest");
    push_literal(&mut r, "org.freedesktop.Notifications");
    push_literal(&mut r, "--object-path");
    push_literal(&mut r, "/org/freedesktop/Notifications");
    push_literal(&mut r, "--method");
    push_literal(&mut r, "org.freedesktop.Notifications.CloseNotification");
    push_text(&mut r, id);
    assert(string_views(r@) =~= dismiss_args_of(idv));
    r
}

/// One thing done to show or remove a status.
#[derive(Debug, Clone, PartialEq, Eq)]
pub enum StatusAction {
    /// Put the text at the cursor the way transcripts are pasted.
    Paste(String),
    /// Wait this many milliseconds.
    PauseMillis(u64),
    /// Press Backspace this many times.
    DeleteChars(usize),
    /// Post a notification; a persistent one stays until dismissed.
    Notify { message: String, persistent: bool },
    /// Close the notification left standing.
    Dismiss,
}

/// Shows the recording, transcribing and no-sound statuses either by typing
/// them into the target field or as desktop notifications.
///
/// Inline statuses are removed by counting characters back out again;
/// notifications are removed by closing them.
#[derive(Debug, Clone, Copy, PartialEq, Eq)]
pub struct Placeholder {
    pub mode: Mode,
}

impl Placeholder {
    /// The placeholder for a run with these settings.
    pub fn new(setting: Setting, paste_mode: PasteMode, notifications_available: bool) -> (p: Placeholder)
        ensures
            p.mode == resolved(setting, paste_mode, notifications_available),
    {
        Placeholder { mode: resolve(setting, paste_mode, notifications_available) }
    }

    /// Shows a status that a later step replaces or clears.
    pub fn show(&self, message: &str) -> (r: Vec<StatusAction>)
        ensures
            r@.len() == (if self.mode == Mode::Off { 0int } else { 1 }),
            self.mode == Mode::Inline ==> (r@[0] matches StatusAction::Paste(t) && t@ == message@),
            self.mode == Mode::Notify ==> (r@[0] matches StatusAction::Notify { message: m, persistent }
                && m@ == message@ && persistent),
    {
        let mut r: Vec<StatusAction> = Vec::new();
        match self.mode {
            Mode::Inline => r.push(StatusAction::Paste(String::from_str(message))),
            Mode::Notify => r.push(StatusAction::Notify { message: String::from_str(message), persistent: true }),
            Mode::Off => {},
        }
        r
    }

    /// Removes a status previously shown with [`Placeholder::show`]: one
    /// backspace per character when inline.
    pub fn clear(&self, message: &str) -> (r: Vec<StatusAction>)
        ensures
            r@.len() == (if self.mode == Mode::Off { 0int } else { 1 }),
            self.mode == Mode::Inline ==> r@[0] == StatusAction::DeleteChars(message@.len() as usize),
            self.mode == Mode::Notify ==> r@[0] == StatusAction::Dismiss,
    {
        let mut r: Vec<StatusAction> = Vec::new();
        match self.mode {
            Mode::Inline => {
                let n = chars_of(message).len();
                r.push(StatusAction::DeleteChars(n));
            },
            Mode::Notify => r.push(StatusAction::Dismiss),
            Mode::Off => {},
        }
        r
    }

    /// Shows a final message that nothing else clears: inline it lingers
    /// 600 ms and is deleted again; a notification expires on its own.
    pub fn show_final(&self, message: &str) -> (r: Vec<StatusAction>)
        ensures
            self.mode == Mode::Inline ==> r@.len() == 3 && (r@[0] matches StatusAction::Paste(t) && t@
                == message@) && r@[1] == StatusAction::PauseMillis(600) && r@[2]
                == StatusAction::DeleteChars(message@.len() as usize),
            self.mode == Mode::Notify ==> r@.len() == 1 && (r@[0] matches StatusAction::Notify {
                message: m,
                persistent,
            } && m@ == message@ && !persistent),
            self.mode == Mode::Off ==> r@.len() == 0,
    {
        let mut r: Vec<StatusAction> = Vec::new();
        match self.mode {
            Mode::Inline => {
                r.push(StatusAction::Paste(String::from_str(message)));
                r.push(StatusAction::PauseMillis(600));
                let n = chars_of(message).len();
                r.push(StatusAction::DeleteChars(n));
            },
            Mode::Notify => r.push(StatusAction::Notify { message: String::from_str(message), persistent: false }),
            Mode::Off => {},
        }
        r
    }
}

/// The text `${device}`.
pub open spec fn device_reference() -> Seq<char> {
    seq!['$', '{', 'd', 'e', 'v', 'i', 'c', 'e', '}']
}

/// A template without `${device}` expands to itself, whatever the device:
/// any other `${name}`, and an unterminated `${`, stays verbatim.
#[verifier::spinoff_prover]
pub proof fn lemma_expand_keeps_other_text(template: Seq<char>, device: Seq<char>)
    requires
        forall|k: int| !#[trigger] occurs_at(template, device_reference(), k),
    ensures
        expanded(template, device) == template,
    decreases template.len(),
{
    let start = find_open(template);
    lemma_find_open_bounds(template);
    if start < template.len() {
        let after = template.skip(start + 2);
        let end = crate::text::find_char(after, '}');
        crate::text::lemma_find_char_bounds(after, '}');
        if end < after.len() {
            let name = after.take(end);
            if name == device_name() {
                assert(name.len() == end);
                assert(device_name().len() == 6);
                assert(end == 6);
                assert(after.len() == template.len() - start - 2);
                assert(start + device_reference().len() <= template.len());
                assert(after[end] == '}');
                assert(template.subrange(start, start + device_reference().len()) =~= device_reference()) by {
                    assert(name.len() == 6);
                    assert forall|i: int| 0 <= i < 6 implies template[start + 2 + i] == #[trigger] device_name()[i] by {
                        assert(name[i] == after[i]);
                    }
                }
                assert(occurs_at(template, device_reference(), start));
            }
            let rest = after.skip(end + 1);
            let off = start + 2 + end + 1;
            assert forall|k: int| !#[trigger] occurs_at(rest, device_reference(), k) by {
                if occurs_at(rest, device_reference(), k) {
                    assert(rest.subrange(k, k + device_reference().len()) =~= template.subrange(
                        off + k,
                        off + k + device_reference().len(),
                    ));
                    assert(occurs_at(template, device_reference(), off + k));
                }
            }
            lemma_expand_keeps_other_text(rest, device);
            assert(template.take(start) + template.subrange(start, off) + rest =~= template);
        }
    }
}

/// Every `${` in `a` is closed by a `}` later in `a`.
pub open spec fn references_closed(a: Seq<char>) -> bool {
    forall|k: int|
        0 <= k && k + 1 < a.len() && #[trigger] a[k] == '$' && a[k + 1] == '{' ==> exists|j: int|
            k + 1 < j < a.len() && a[j] == '}'
}

/// A `${device}` is replaced by the device wherever it stands: after text
/// that holds no `${device}` itself and leaves no `${` open, whatever that
/// text holds (other `${name}`s included), the reference becomes `device`
/// and the expansion goes on with the rest.
#[verifier::spinoff_prover]
#[verifier::rlimit(50)]
pub proof fn lemma_expand_replaces_reference(a: Seq<char>, b: Seq<char>, device: Seq<char>)
    requires
        forall|k: int| !#[trigger] occurs_at(a, device_reference(), k),
        references_closed(a),
    ensures
        expanded(a + device_reference() + b, device) == expanded(a, device) + device + expanded(b, device),
    decreases a.len(),
{
    let r = device_reference();
    let t = a + r + b;
    let n = a.len() as int;
    lemma_find_open_bounds(a);
    let s = find_open(a);
    assert(t.len() == n + 9 + b.len());
    if s >= n {
        assert forall|k: int| 0 <= k < n && k + 1 < t.len() implies !(#[trigger] t[k] == '$' && t[k + 1] == '{') by {
            assert(t[k] == a[k]);
            if k + 1 < n {
                assert(t[k + 1] == a[k + 1]);
            } else {
                assert(t[k + 1] == r[0]);
            }
        }
        assert(t[n] == '$' && t[n + 1] == '{');
        lemma_find_open_is(t, n);
        let after = t.skip(n + 2);
        assert forall|k: int| 0 <= k < 6 implies after[k] != '}' by {
            assert(after[k] == r[k + 2]);
        }
        assert(after[6] == '}');
        crate::text::lemma_find_char_is(after, '}', 6);
        assert(after.take(6) =~= device_name());
        assert(after.skip(7) =~= b);
        assert(t.take(n) =~= a);
    } else {
        let after_a = a.skip(s + 2);
        let after_t = t.skip(s + 2);
        assert(a[s] == '$' && a[s + 1] == '{');
        let j = choose|j: int| s + 1 < j < a.len() && a[j] == '}';
        assert(after_a[j - s - 2] == '}');
        crate::text::lemma_find_char_bounds(after_a, '}');
        let e = crate::text::find_char(after_a, '}');
        assert(e <= j - s - 2) by {
            if e > j - s - 2 {
                assert(after_a[j - s - 2] != '}');
            }
        }
        assert forall|k: int| 0 <= k < s && k + 1 < t.len() implies !(#[trigger] t[k] == '$' && t[k + 1] == '{') by {
            assert(t[k] == a[k]);
            assert(t[k + 1] == a[k + 1]);
        }
        assert(t[s] == a[s] && t[s + 1] == a[s + 1]);
        lemma_find_open_is(t, s);
        assert forall|k: int| 0 <= k < e implies after_t[k] != '}' by {
            assert(after_t[k] == after_a[k]);
        }
        assert(after_t[e] == after_a[e]);
        crate::text::lemma_find_char_is(after_t, '}', e);
        let name = after_a.take(e);
        assert(after_t.take(e) =~= name);
        if name == device_name() {
            assert(name.len() == e);
            assert(device_name().len() == 6);
            assert(a.subrange(s, s + 9) =~= r) by {
                assert forall|i: int| 0 <= i < 6 implies a[s + 2 + i] == #[trigger] device_name()[i] by {
                    assert(name[i] == after_a[i]);
                }
            }
            assert(occurs_at(a, r, s));
        }
        let off = s + 2 + e + 1;
        let a2 = a.skip(off);
        assert(after_t.skip(e + 1) =~= a2 + r + b);
        assert(after_a.skip(e + 1) =~= a2);
        assert(t.subrange(s, off) =~= a.subrange(s, off));
        assert(t.take(s) =~= a.take(s));
        assert forall|k: int| !#[trigger] occurs_at(a2, r, k) by {
            if occurs_at(a2, r, k) {
                assert(a2.subrange(k, k + r.len()) =~= a.subrange(off + k, off + k + r.len()));
                assert(occurs_at(a, r, off + k));
            }
        }
        assert forall|k: int|
            0 <= k && k + 1 < a2.len() && #[trigger] a2[k] == '$' && a2[k + 1] == '{' implies exists|j2: int|
                k + 1 < j2 < a2.len() && a2[j2] == '}' by {
            assert(a[off + k] == a2[k] && a[off + k + 1] == a2[k + 1]);
            let jj = choose|jj: int| off + k + 1 < jj < a.len() && a[jj] == '}';
            assert(a2[jj - off] == a[jj]);
        }
        lemma_expand_replaces_reference(a2, b, device);
        let piece = a.subrange(s, off);
        assert(a.take(s) + piece + (expanded(a2, device) + device + expanded(b, device)) =~= (a.take(s) + piece
            + expanded(a2, device)) + device + expanded(b, device));
    }
}

/// What each setting resolves to: an explicit choice stands whatever the
/// paste mode and availability, and `auto` means notifications exactly when
/// the text is pasted through the clipboard and notifications can be
/// shown, inline typing otherwise.
pub proof fn lemma_resolve_rules(setting: Setting, paste_mode: PasteMode, available: bool)
    ensures
        setting == Setting::Inline ==> resolved(setting, paste_mode, available) == Mode::Inline,
        setting == Setting::Notify ==> resolved(setting, paste_mode, available) == Mode::Notify,
        setting == Setting::Off ==> resolved(setting, paste_mode, available) == Mode::Off,
        setting == Setting::Auto ==> (resolved(setting, paste_mode, available) == Mode::Notify <==> ((
        paste_mode == PasteMode::Clipboard || paste_mode == PasteMode::ClipboardRestore) && available)),
        setting == Setting::Auto ==> resolved(setting, paste_mode, available) != Mode::Off,
{
}

} // verus!
