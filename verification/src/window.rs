//! Locating the on-screen window of a game's executable.

use crate::crop::Rect;
use crate::paths::chars_of;
use crate::records::Game;
use vstd::prelude::*;
use vstd::string::*;

verus! {

/// A top-level window as the operating system reports it.
pub struct WindowInfo {
    /// Whether the window is visible.
    pub visible: bool,
    /// Path of the executable that owns the window; `None` where the owning
    /// process could not be resolved.
    pub exe_path: Option<String>,
    /// The window's rectangle on the virtual screen; `None` where it could
    /// not be read.
    pub rect: Option<Rect>,
}

/// The lower-case form of a text, as Unicode defines it.
pub uninterp spec fn lowercase_of(s: Seq<char>) -> Seq<char>;

/// The text with every `\` turned into `/`.
pub open spec fn with_forward_slashes(s: Seq<char>) -> Seq<char> {
    Seq::new(
        s.len(),
        |i: int|
            if s[i] == '\\' {
                '/'
            } else {
                s[i]
            },
    )
}

/// The form in which executable paths are compared: separators made uniform,
/// then lower case.
pub open spec fn normal_form(s: Seq<char>) -> Seq<char> {
    lowercase_of(with_forward_slashes(s))
}

/// Whether a window belongs to the executable with the given normal form and
/// can be used: it is visible, its owner is that executable, and its
/// rectangle is known.
pub open spec fn window_matches(w: WindowInfo, target: Seq<char>) -> bool {
    &&& w.visible
    &&& w.exe_path is Some
    &&& normal_form(w.exe_path->0@) == target
    &&& w.rect is Some
}

/// `found` is the rectangle of the first matching window, or `None` where no
/// window matches.
pub open spec fn first_window_rect(windows: Seq<WindowInfo>, target: Seq<char>, found: Option<Rect>) -> bool {
    match found {
        Some(rect) => exists|i: int|
            {
                &&& 0 <= i < windows.len()
                &&& window_matches(#[trigger] windows[i], target)
                &&& windows[i].rect == Some(rect)
                &&& forall|j: int| 0 <= j < i ==> !window_matches(#[trigger] windows[j], target)
            },
        None => forall|j: int| 0 <= j < windows.len() ==> !window_matches(#[trigger] windows[j], target),
    }
}

/// Turns every `\` of the text into `/`.
fn forward_slashes(s: &str) -> (r: String)
    ensures
        r@ == with_forward_slashes(s@),
{
    let chars = chars_of(s);
    let mut out = String::new();
    let mut i: usize = 0;
    while i < chars.len()
        invariant
            i <= chars@.len(),
            chars@ == s@,
            out@ == with_forward_slashes(s@).take(i as int),
        decreases chars@.len() - i,
    {
        if chars[i] == '\\' {
            proof {
                reveal_strlit("/");
            }
            out.append("/");
        } else {
            out.append(s.substring_char(i, i + 1));
        }
        assert(out@ == with_forward_slashes(s@).take(i as int + 1));
        i = i + 1;
    }
    assert(with_forward_slashes(s@).take(i as int) == with_forward_slashes(s@));
    out
}

/// `str::to_lowercase`: the lower-case equivalent of the text.
#[verifier::external_body]
fn lowercase(s: &str) -> (r: String)
    ensures
        r@ == lowercase_of(s@),
{
    s.to_lowercase()
}

/// Brings an executable path into the form in which paths are compared.
pub fn normalize_exe_path(path: &str) -> (r: String)
    ensures
        r@ == normal_form(path@),
{
    let uniform = forward_slashes(path);
    lowercase(uniform.as_str())
}

/// A window whose owner's path has been brought into normal form.
pub struct WindowForm {
    /// Whether the window is visible.
    pub visible: bool,
    /// The owner's path in normal form; `None` where the owner is unknown.
    pub exe_form: Option<String>,
    /// The window's rectangle; `None` where it could not be read.
    pub rect: Option<Rect>,
}

/// Whether a window in normal form belongs to the executable with the given
/// normal form and can be used.
pub open spec fn form_matches(w: WindowForm, target: Seq<char>) -> bool {
    &&& w.visible
    &&& w.exe_form is Some
    &&& w.exe_form->0@ == target
    &&& w.rect is Some
}

/// `found` is the rectangle of the first matching window in normal form, or
/// `None` where no window matches.
pub open spec fn first_rect_by_form(windows: Seq<WindowForm>, target: Seq<char>, found: Option<Rect>) -> bool {
    match found {
        Some(rect) => exists|i: int|
            {
                &&& 0 <= i < windows.len()
                &&& form_matches(#[trigger] windows[i], target)
                &&& windows[i].rect == Some(rect)
                &&& forall|j: int| 0 <= j < i ==> !form_matches(#[trigger] windows[j], target)
            },
        None => forall|j: int| 0 <= j < windows.len() ==> !form_matches(#[trigger] windows[j], target),
    }
}

/// Whether `form` is the window `w` with its owner's path in normal form.
pub open spec fn is_form_of(form: WindowForm, w: WindowInfo) -> bool {
    &&& form.visible == w.visible
    &&& form.rect == w.rect
    &&& match w.exe_path {
        Some(path) => form.exe_form is Some && form.exe_form->0@ == normal_form(path@),
        None => form.exe_form is None,
    }
}

/// Finds the rectangle of the first visible window whose owner has exactly
/// the given normal form and whose rectangle is known.
pub fn find_rect_by_form(target_form: &str, windows: &Vec<WindowForm>) -> (r: Option<Rect>)
    ensures
        first_rect_by_form(windows@, target_form@, r),
{
    let target = String::from_str(target_form);
    let mut i: usize = 0;
    while i < windows.len()
        invariant
            i <= windows@.len(),
            target@ == target_form@,
            forall|j: int| 0 <= j < i ==> !form_matches(#[trigger] windows@[j], target_form@),
        decreases windows@.len() - i,
    {
        let w = &windows[i];
        if w.visible {
            match (&w.exe_form, w.rect) {
                (Some(owner), Some(rect)) => {
                    if *owner == target {
                        return Some(rect);
                    }
                },
                _ => {},
            }
        }
        i = i + 1;
    }
    None
}

/// Brings the owner's path of every window into normal form.
pub fn normalize_windows(windows: &Vec<WindowInfo>) -> (r: Vec<WindowForm>)
    ensures
        r@.len() == windows@.len(),
        forall|i: int| 0 <= i < r@.len() ==> is_form_of(#[trigger] r@[i], windows@[i]),
{
    let mut forms: Vec<WindowForm> = Vec::new();
    let mut i: usize = 0;
    while i < windows.len()
        invariant
            i <= windows@.len(),
            forms@.len() == i,
            forall|j: int| 0 <= j < i ==> is_form_of(#[trigger] forms@[j], windows@[j]),
        decreases windows@.len() - i,
    {
        let w = &windows[i];
        let exe_form = match &w.exe_path {
            Some(path) => Some(normalize_exe_path(path.as_str())),
            None => None,
        };
        forms.push(WindowForm { visible: w.visible, exe_form, rect: w.rect });
        i = i + 1;
    }
    forms
}

/// What is found among the normal forms of the windows is what is found
/// among the windows themselves.
proof fn lemma_forms_find_the_same(
    windows: Seq<WindowInfo>,
    forms: Seq<WindowForm>,
    target: Seq<char>,
    found: Option<Rect>,
)
    requires
        forms.len() == windows.len(),
        forall|i: int| 0 <= i < forms.len() ==> is_form_of(#[trigger] forms[i], windows[i]),
        first_rect_by_form(forms, target, found),
    ensures
        first_window_rect(windows, target, found),
{
    assert forall|j: int| 0 <= j < windows.len() implies (window_matches(
        #[trigger] windows[j],
        target,
    ) <==> form_matches(forms[j], target)) && windows[j].rect == forms[j].rect by {
        assert(is_form_of(forms[j], windows[j]));
    }
    match found {
        Some(rect) => {
            let i = choose|i: int|
                {
                    &&& 0 <= i < forms.len()
                    &&& form_matches(#[trigger] forms[i], target)
                    &&& forms[i].rect == Some(rect)
                    &&& forall|j: int| 0 <= j < i ==> !form_matches(#[trigger] forms[j], target)
                };
            assert(window_matches(windows[i], target));
            assert forall|j: int| 0 <= j < i implies !window_matches(
                #[trigger] windows[j],
                target,
            ) by {
                assert(!form_matches(forms[j], target));
            }
        },
        None => {
            assert forall|j: int| 0 <= j < windows.len() implies !window_matches(
                #[trigger] windows[j],
                target,
            ) by {
                assert(!form_matches(forms[j], target));
            }
        },
    }
}

/// Finds the screen rectangle of the first visible window that belongs to the
/// given executable. Paths are compared without regard to case or to the kind
/// of separator. `None` when no such window is listed, as on a platform that
/// cannot list windows at all.
pub fn find_window_rect_for_exe(exe_path: &str, windows: &Vec<WindowInfo>) -> (r: Option<Rect>)
    ensures
        first_window_rect(windows@, normal_form(exe_path@), r),
{
    let target = normalize_exe_path(exe_path);
    let forms = normalize_windows(windows);
    let found = find_rect_by_form(target.as_str(), &forms);
    proof {
        lemma_forms_find_the_same(windows@, forms@, target@, found);
    }
    found
}

/// Whether a game is running: its executable is known and owns a usable
/// window.
pub open spec fn is_running(game: Game, windows: Seq<WindowInfo>) -> bool {
    &&& game.exe_path is Some
    &&& exists|i: int|
        0 <= i < windows.len() && window_matches(
            #[trigger] windows[i],
            normal_form(game.exe_path->0@),
        )
}

/// Finds the first game of the list that is running.
pub fn find_running_game(games: &Vec<Game>, windows: &Vec<WindowInfo>) -> (r: Option<usize>)
    ensures
        match r {
            Some(i) => {
                &&& i < games@.len()
                &&& is_running(games@[i as int], windows@)
                &&& forall|j: int| 0 <= j < i ==> !is_running(#[trigger] games@[j], windows@)
            },
            None => forall|j: int| 0 <= j < games@.len() ==> !is_running(#[trigger] games@[j], windows@),
        },
{
    let forms = normalize_windows(windows);
    let mut i: usize = 0;
    while i < games.len()
        invariant
            i <= games@.len(),
            forms@.len() == windows@.len(),
            forall|k: int| 0 <= k < forms@.len() ==> is_form_of(#[trigger] forms@[k], windows@[k]),
            forall|j: int| 0 <= j < i ==> !is_running(#[trigger] games@[j], windows@),
        decreases games@.len() - i,
    {
        match &games[i].exe_path {
            Some(exe) => {
                let target = normalize_exe_path(exe.as_str());
                let found = find_rect_by_form(target.as_str(), &forms);
                proof {
                    lemma_forms_find_the_same(windows@, forms@, target@, found);
                }
                if found.is_some() {
                    return Some(i);
                }
            },
            None => {},
        }
        i = i + 1;
    }
    None
}

} // verus!
