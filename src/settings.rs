use vstd::prelude::*;
use crate::text::str_equals;

verus! {

/// The display settings of the ticker: one visibility flag per tracked
/// price source and the window's background color.
#[derive(Debug)]
pub struct Settings {
    pub show_xau: bool,
    pub show_ms: bool,
    pub show_gh: bool,
    pub show_zs: bool,
    pub bg_color: String,
}

/// The mathematical value of a `Settings`.
pub struct SettingsView {
    pub show_xau: bool,
    pub show_ms: bool,
    pub show_gh: bool,
    pub show_zs: bool,
    pub bg_color: Seq<char>,
}

impl View for Settings {
    type V = SettingsView;

    open spec fn view(&self) -> SettingsView {
        SettingsView {
            show_xau: self.show_xau,
            show_ms: self.show_ms,
            show_gh: self.show_gh,
            show_zs: self.show_zs,
            bg_color: self.bg_color@,
        }
    }
}

impl Clone for Settings {
    fn clone(&self) -> (r: Settings)
        ensures
            r == *self,
    {
        Settings {
            show_xau: self.show_xau,
            show_ms: self.show_ms,
            show_gh: self.show_gh,
            show_zs: self.show_zs,
            bg_color: self.bg_color.clone(),
        }
    }
}

impl PartialEq for Settings {
    fn eq(&self, o: &Settings) -> (r: bool) {
        self.show_xau == o.show_xau && self.show_ms == o.show_ms && self.show_gh == o.show_gh
            && self.show_zs == o.show_zs && self.bg_color == o.bg_color
    }
}

impl vstd::std_specs::cmp::PartialEqSpecImpl for Settings {
    open spec fn obeys_eq_spec() -> bool {
        true
    }

    open spec fn eq_spec(&self, o: &Settings) -> bool {
        self@ == o@
    }
}

/// One of the four price sources whose visibility can be toggled.
#[derive(Debug, Clone, Copy, PartialEq, Eq, Structural)]
pub enum SettingsField {
    Xau,
    Ms,
    Gh,
    Zs,
}

/// The background color used when nothing else was chosen.
pub open spec fn default_bg_color() -> Seq<char> {
    seq!['#', '2', 'c', '3', 'e', '5', '0']
}

/// The compiled-in default: every source shown, dark slate background.
pub open spec fn default_view() -> SettingsView {
    SettingsView {
        show_xau: true,
        show_ms: true,
        show_gh: true,
        show_zs: true,
        bg_color: default_bg_color(),
    }
}

/// The field that an identifier names: `"xau"`, `"ms"`, `"gh"` or `"zs"`.
pub open spec fn field_of(id: Seq<char>) -> Option<SettingsField> {
    if id == seq!['x', 'a', 'u'] {
        Some(SettingsField::Xau)
    } else if id == seq!['m', 's'] {
        Some(SettingsField::Ms)
    } else if id == seq!['g', 'h'] {
        Some(SettingsField::Gh)
    } else if id == seq!['z', 's'] {
        Some(SettingsField::Zs)
    } else {
        None
    }
}

/// The value of one visibility flag.
pub open spec fn flag(s: SettingsView, f: SettingsField) -> bool {
    match f {
        SettingsField::Xau => s.show_xau,
        SettingsField::Ms => s.show_ms,
        SettingsField::Gh => s.show_gh,
        SettingsField::Zs => s.show_zs,
    }
}

/// `s` with exactly the flag `f` negated.
pub open spec fn flip(s: SettingsView, f: SettingsField) -> SettingsView {
    match f {
        SettingsField::Xau => SettingsView { show_xau: !s.show_xau, ..s },
        SettingsField::Ms => SettingsView { show_ms: !s.show_ms, ..s },
        SettingsField::Gh => SettingsView { show_gh: !s.show_gh, ..s },
        SettingsField::Zs => SettingsView { show_zs: !s.show_zs, ..s },
    }
}

/// `s` with its background color replaced.
pub open spec fn recolor(s: SettingsView, color: Seq<char>) -> SettingsView {
    SettingsView { bg_color: color, ..s }
}

/// The compiled-in default settings.
pub fn default_settings() -> (r: Settings)
    ensures
        r@ == default_view(),
{
    let bg_color = "#2c3e50".to_string();
    proof {
        reveal_strlit("#2c3e50");
    }
    assert(bg_color@ =~= default_bg_color());
    Settings { show_xau: true, show_ms: true, show_gh: true, show_zs: true, bg_color }
}

/// Reads a source identifier; `None` for anything but the four known ones.
pub fn parse_field(id: &str) -> (r: Option<SettingsField>)
    ensures
        r == field_of(id@),
{
    proof {
        reveal_strlit("xau");
        reveal_strlit("ms");
        reveal_strlit("gh");
        reveal_strlit("zs");
    }
    assert("xau"@ =~= seq!['x', 'a', 'u']);
    assert("ms"@ =~= seq!['m', 's']);
    assert("gh"@ =~= seq!['g', 'h']);
    assert("zs"@ =~= seq!['z', 's']);
    if str_equals(id, "xau") {
        Some(SettingsField::Xau)
    } else if str_equals(id, "ms") {
        Some(SettingsField::Ms)
    } else if str_equals(id, "gh") {
        Some(SettingsField::Gh)
    } else if str_equals(id, "zs") {
        Some(SettingsField::Zs)
    } else {
        None
    }
}

impl Settings {
    /// Whether the source `f` is shown.
    pub fn shows(&self, f: SettingsField) -> (r: bool)
        ensures
            r == flag(self@, f),
    {
        match f {
            SettingsField::Xau => self.show_xau,
            SettingsField::Ms => self.show_ms,
            SettingsField::Gh => self.show_gh,
            SettingsField::Zs => self.show_zs,
        }
    }

    /// A copy with exactly the flag `f` negated.
    pub fn toggled(&self, f: SettingsField) -> (r: Settings)
        ensures
            r@ == flip(self@, f),
    {
        let mut r = self.clone();
        match f {
            SettingsField::Xau => r.show_xau = !r.show_xau,
            SettingsField::Ms => r.show_ms = !r.show_ms,
            SettingsField::Gh => r.show_gh = !r.show_gh,
            SettingsField::Zs => r.show_zs = !r.show_zs,
        }
        r
    }

    /// A copy with the background color replaced; the color is not checked.
    pub fn with_background(&self, color: String) -> (r: Settings)
        ensures
            r@ == recolor(self@, color@),
    {
        Settings {
            show_xau: self.show_xau,
            show_ms: self.show_ms,
            show_gh: self.show_gh,
            show_zs: self.show_zs,
            bg_color: color,
        }
    }
}

/// Toggling the same source twice gives back the settings one started from.
pub proof fn lemma_toggle_twice(s: SettingsView, f: SettingsField)
    ensures
        flip(flip(s, f), f) == s,
        flag(flip(s, f), f) == !flag(s, f),
{
}

/// Toggling two different sources, in either order, gives the same
/// settings, in which both flags are negated and everything else is kept.
pub proof fn lemma_toggles_commute(s: SettingsView, a: SettingsField, b: SettingsField)
    requires
        a != b,
    ensures
        flip(flip(s, a), b) == flip(flip(s, b), a),
        flag(flip(flip(s, a), b), a) == !flag(s, a),
        flag(flip(flip(s, a), b), b) == !flag(s, b),
        flip(flip(s, a), b).bg_color == s.bg_color,
        forall|c: SettingsField|
            c != a && c != b ==> #[trigger] flag(flip(flip(s, a), b), c) == flag(s, c),
{
}

} // verus!
