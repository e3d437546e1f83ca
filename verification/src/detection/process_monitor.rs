//! Foreground-window / process-list polling for meeting detection.
use vstd::prelude::*;
use crate::detection::{DetectionEngine, DetectionMode};

verus! {

/// What `str::to_lowercase` returns for a string: each character replaced
/// by its Unicode lower-case mapping.
pub uninterp spec fn lowercase(s: Seq<char>) -> Seq<char>;

/// `pattern` occurs in `text` as a run of consecutive characters.
pub open spec fn occurs_in(pattern: Seq<char>, text: Seq<char>) -> bool {
    exists|i: int| 0 <= i && i + pattern.len() <= text.len() && #[trigger] text.subrange(i, i + pattern.len()) == pattern
}

/// `str::to_lowercase`: the lower-case form of `s`, named `lowercase`.
#[verifier::external_body]
fn to_lowercase(s: &str) -> (r: String)
    ensures
        r@ == lowercase(s@),
{
    s.to_lowercase()
}

/// The characters of a string, in order.
fn chars_of(s: &str) -> (r: Vec<char>)
    ensures
        r@ == s@,
{
    let n = s.unicode_len();
    let mut r: Vec<char> = Vec::new();
    let mut i: usize = 0;
    while i < n
        invariant
            n == s@.len(),
            i <= n,
            r@ == s@.subrange(0, i as int),
        decreases n - i,
    {
        r.push(s.get_char(i));
        i = i + 1;
    }
    assert(s@.subrange(0, n as int) =~= s@);
    r
}

/// Whether `pattern` matches `text` at position `start`.
fn matches_at(text: &Vec<char>, pattern: &Vec<char>, start: usize) -> (r: bool)
    requires
        start + pattern@.len() <= text@.len(),
    ensures
        r == (text@.subrange(start as int, start + pattern@.len()) == pattern@),
{
    let text_len = text.len();
    let mut j: usize = 0;
    while j < pattern.len()
        invariant
            text_len == text@.len(),
            start + pattern@.len() <= text@.len(),
            j <= pattern@.len(),
            forall|k: int| 0 <= k < j ==> text@[start + k] == pattern@[k],
        decreases pattern@.len() - j,
    {
        assert(start + j < text@.len());
        if text[start + j] != pattern[j] {
            assert(text@.subrange(start as int, start + pattern@.len())[j as int] != pattern@[j as int]);
            return false;
        }
        j = j + 1;
    }
    assert(text@.subrange(start as int, start + pattern@.len()) =~= pattern@);
    true
}

/// Whether `pattern` occurs in `text` as a run of consecutive characters
/// (an empty pattern occurs in every text).
pub fn contains_str(text: &str, pattern: &str) -> (r: bool)
    ensures
        r == occurs_in(pattern@, text@),
{
    let t = chars_of(text);
    let p = chars_of(pattern);
    if p.len() > t.len() {
        assert forall|i: int| 0 <= i && i + pattern@.len() <= text@.len() implies
            #[trigger] text@.subrange(i, i + pattern@.len()) != pattern@ by {}
        return false;
    }
    let last = t.len() - p.len();
    let mut i: usize = 0;
    loop
        invariant
            t@ == text@,
            p@ == pattern@,
            last + p@.len() == t@.len(),
            i <= last,
            forall|k: int| 0 <= k < i ==> #[trigger] text@.subrange(k, k + pattern@.len()) != pattern@,
        decreases last - i,
    {
        if matches_at(&t, &p, i) {
            return true;
        }
        if i == last {
            assert forall|k: int| 0 <= k && k + pattern@.len() <= text@.len() implies
                #[trigger] text@.subrange(k, k + pattern@.len()) != pattern@ by {
                assert(k <= i);
            }
            return false;
        }
        i = i + 1;
    }
}

/// Whether the application `app` is on the allowlist: some entry occurs in
/// the app's name, both taken in lower case.
pub open spec fn on_allowlist(app: Seq<char>, allowlist: Seq<String>) -> bool {
    exists|i: int| 0 <= i < allowlist.len() && occurs_in(lowercase(#[trigger] allowlist[i]@), lowercase(app))
}

/// Every text occurs in itself.
pub proof fn lemma_occurs_in_itself(t: Seq<char>)
    ensures
        occurs_in(t, t),
{
    assert(t.subrange(0int, 0int + t.len()) =~= t);
}

/// An application matches the allowlist exactly when, for some position of
/// the allowlist (the last one included), that entry in lower case occurs in
/// the application's name in lower case; in particular an application named
/// exactly like any entry matches, and nothing matches an empty allowlist.
pub proof fn lemma_allowlist_match(app: Seq<char>, allowlist: Seq<String>, i: int)
    ensures
        0 <= i < allowlist.len() && occurs_in(lowercase(allowlist[i]@), lowercase(app)) ==> on_allowlist(app, allowlist),
        0 <= i < allowlist.len() ==> on_allowlist(allowlist[i]@, allowlist),
        on_allowlist(app, allowlist) ==> exists|j: int| 0 <= j < allowlist.len()
            && #[trigger] occurs_in(lowercase(allowlist[j]@), lowercase(app)),
        allowlist.len() == 0 ==> !on_allowlist(app, allowlist),
{
    if 0 <= i < allowlist.len() {
        lemma_occurs_in_itself(lowercase(allowlist[i]@));
    }
}

/// Whether the application named `app` is on the allowlist, ignoring case:
/// true when some entry occurs in the name.
pub fn matches_allowlist(app: &str, allowlist: &[String]) -> (r: bool)
    ensures
        r == on_allowlist(app@, allowlist@),
        forall|i: int| 0 <= i < allowlist@.len() && occurs_in(lowercase(#[trigger] allowlist@[i]@), lowercase(app@)) ==> r,
        r ==> exists|i: int| 0 <= i < allowlist@.len() && occurs_in(lowercase(#[trigger] allowlist@[i]@), lowercase(app@)),
{
    let lowered = to_lowercase(app);
    let mut i: usize = 0;
    while i < allowlist.len()
        invariant
            i <= allowlist.len(),
            lowered@ == lowercase(app@),
            forall|j: int| 0 <= j < i ==> !occurs_in(lowercase(#[trigger] allowlist@[j]@), lowercase(app@)),
        decreases allowlist.len() - i,
    {
        let entry = to_lowercase(allowlist[i].as_str());
        if contains_str(lowered.as_str(), entry.as_str()) {
            assert(occurs_in(lowercase(allowlist@[i as int]@), lowercase(app@)));
            return true;
        }
        i = i + 1;
    }
    false
}

/// The meeting status reported for a foreground application: uncertain
/// (`None`) when no application is identifiable, else whether it is on the
/// allowlist.
pub open spec fn meeting_status_spec(app: Option<Seq<char>>, allowlist: Seq<String>) -> Option<bool> {
    match app {
        Some(name) => Some(on_allowlist(name, allowlist)),
        None => None,
    }
}

/// Cross-platform process monitor that uses OS-specific APIs
/// to determine the foreground application.
pub struct ProcessMonitor {
    mode: DetectionMode,
}

impl ProcessMonitor {
    /// The monitor's detection mode.
    pub closed spec fn current_mode(&self) -> DetectionMode {
        self.mode
    }

    /// A monitor in the given mode.
    pub fn new(mode: DetectionMode) -> (r: Self)
        ensures
            r.current_mode() == mode,
    {
        ProcessMonitor { mode }
    }

    /// The name of the foreground application, if identifiable. Platform
    /// detection is not wired on any platform, so no application is
    /// identified.
    pub fn foreground_app(&self) -> (r: Option<String>)
        ensures
            r is None,
    {
        None
    }

    /// The meeting status for the foreground application `app`: `None` if
    /// it is not identifiable, else whether its name matches the allowlist.
    pub fn meeting_status(app: Option<String>, allowlist: &[String]) -> (r: Option<bool>)
        ensures
            r == meeting_status_spec(match app { Some(a) => Some(a@), None => None }, allowlist@),
    {
        match app {
            Some(name) => Some(matches_allowlist(name.as_str(), allowlist)),
            None => None,
        }
    }

    /// Whether a meeting is active in the foreground application, judged by
    /// the allowlist. With no foreground application identifiable, the
    /// answer is uncertain.
    pub fn is_meeting_active(&self, allowlist: &[String]) -> (r: Option<bool>)
        ensures
            r is None,
    {
        Self::meeting_status(self.foreground_app(), allowlist)
    }
}

impl DetectionEngine for ProcessMonitor {
    open spec fn engine_mode(&self) -> DetectionMode {
        self.current_mode()
    }

    fn set_mode(&mut self, mode: DetectionMode)
        ensures
            final(self).current_mode() == mode,
    {
        self.mode = mode;
    }

    fn mode(&self) -> (r: DetectionMode)
        ensures
            r == self.current_mode(),
    {
        self.mode
    }
}

} // verus!
