//! Colour palettes and the cursor that cycles through them.

use vstd::prelude::*;

verus! {

/// An RGB triple.
pub type Color = (u8, u8, u8);

/// A palette: one colour for each kind of thing on screen.
#[derive(Clone, Copy, Debug, PartialEq, Eq)]
pub struct Theme {
    /// Sand at the bottom of the sea.
    pub sand: Color,
    /// Speckles in the sand.
    pub sand_highlight: Color,
    /// The water.
    pub water: Color,
    /// Pipe bodies and caps.
    pub pipes: Color,
    /// Bubbles.
    pub bubbles: Color,
    /// Text.
    pub text: Color,
    /// The submarine.
    pub sub: Color,
    pub fauna_color_1: Color,
    pub fauna_color_2: Color,
    pub fauna_color_3: Color,
    pub fauna_color_4: Color,
}

/// The full-colour palette.
pub open spec fn color_theme_spec() -> Theme {
    Theme {
        sand: (244, 214, 164),
        sand_highlight: (178, 147, 114),
        water: (74, 179, 219),
        pipes: (111, 191, 115),
        bubbles: (136, 207, 241),
        text: (116, 100, 76),
        sub: (128, 128, 255),
        fauna_color_1: (242, 140, 140),
        fauna_color_2: (42, 123, 79),
        fauna_color_3: (255, 111, 97),
        fauna_color_4: (139, 111, 169),
    }
}

/// The full-colour palette.
#[verifier::when_used_as_spec(color_theme_spec)]
pub fn color_theme() -> (t: Theme)
    ensures
        t == color_theme_spec(),
{
    Theme {
        sand: (244, 214, 164),
        sand_highlight: (178, 147, 114),
        water: (74, 179, 219),
        pipes: (111, 191, 115),
        bubbles: (136, 207, 241),
        text: (116, 100, 76),
        sub: (128, 128, 255),
        fauna_color_1: (242, 140, 140),
        fauna_color_2: (42, 123, 79),
        fauna_color_3: (255, 111, 97),
        fauna_color_4: (139, 111, 169),
    }
}

/// The full-colour palette reduced to greys.
pub open spec fn grayscale_theme_spec() -> Theme {
    Theme {
        sand: (213, 213, 213),
        sand_highlight: (155, 155, 155),
        water: (142, 142, 142),
        pipes: (161, 161, 161),
        bubbles: (196, 196, 196),
        text: (104, 104, 104),
        sub: (128, 128, 128),
        fauna_color_1: (161, 161, 161),
        fauna_color_2: (93, 93, 93),
        fauna_color_3: (144, 144, 144),
        fauna_color_4: (116, 116, 116),
    }
}

/// The full-colour palette reduced to greys.
#[verifier::when_used_as_spec(grayscale_theme_spec)]
pub fn grayscale_theme() -> (t: Theme)
    ensures
        t == grayscale_theme_spec(),
{
    Theme {
        sand: (213, 213, 213),
        sand_highlight: (155, 155, 155),
        water: (142, 142, 142),
        pipes: (161, 161, 161),
        bubbles: (196, 196, 196),
        text: (104, 104, 104),
        sub: (128, 128, 128),
        fauna_color_1: (161, 161, 161),
        fauna_color_2: (93, 93, 93),
        fauna_color_3: (144, 144, 144),
        fauna_color_4: (116, 116, 116),
    }
}

/// Warm sand, cyan water.
pub open spec fn theme_spec() -> Theme {
    Theme {
        sand: (245, 203, 123),
        sand_highlight: (214, 163, 92),
        water: (93, 188, 210),
        pipes: (129, 199, 132),
        bubbles: (171, 222, 239),
        text: (89, 80, 66),
        sub: (128, 128, 255),
        fauna_color_1: (243, 156, 18),
        fauna_color_2: (39, 174, 96),
        fauna_color_3: (231, 76, 60),
        fauna_color_4: (155, 89, 182),
    }
}

/// Warm sand, cyan water.
#[verifier::when_used_as_spec(theme_spec)]
pub fn theme() -> (t: Theme)
    ensures
        t == theme_spec(),
{
    Theme {
        sand: (245, 203, 123),
        sand_highlight: (214, 163, 92),
        water: (93, 188, 210),
        pipes: (129, 199, 132),
        bubbles: (171, 222, 239),
        text: (89, 80, 66),
        sub: (128, 128, 255),
        fauna_color_1: (243, 156, 18),
        fauna_color_2: (39, 174, 96),
        fauna_color_3: (231, 76, 60),
        fauna_color_4: (155, 89, 182),
    }
}

/// Beige sand, sky-blue water.
pub open spec fn theme_2_spec() -> Theme {
    Theme {
        sand: (232, 198, 135),
        sand_highlight: (192, 157, 104),
        water: (89, 168, 245),
        pipes: (84, 153, 124),
        bubbles: (156, 209, 247),
        text: (70, 63, 55),
        sub: (128, 128, 255),
        fauna_color_1: (255, 87, 51),
        fauna_color_2: (46, 204, 113),
        fauna_color_3: (240, 147, 43),
        fauna_color_4: (128, 90, 213),
    }
}

/// Beige sand, sky-blue water.
#[verifier::when_used_as_spec(theme_2_spec)]
pub fn theme_2() -> (t: Theme)
    ensures
        t == theme_2_spec(),
{
    Theme {
        sand: (232, 198, 135),
        sand_highlight: (192, 157, 104),
        water: (89, 168, 245),
        pipes: (84, 153, 124),
        bubbles: (156, 209, 247),
        text: (70, 63, 55),
        sub: (128, 128, 255),
        fauna_color_1: (255, 87, 51),
        fauna_color_2: (46, 204, 113),
        fauna_color_3: (240, 147, 43),
        fauna_color_4: (128, 90, 213),
    }
}

/// The mathematical content of a `ThemeSwitcher`: the palettes in order and
/// the position of the active one.
pub struct ThemeCursor {
    pub themes: Seq<Theme>,
    pub index: int,
}

impl ThemeCursor {
    /// The list is non-empty and the position lies inside it.
    pub open spec fn wf(self) -> bool {
        0 <= self.index < self.themes.len()
    }

    /// The active palette.
    pub open spec fn current(self) -> Theme {
        self.themes[self.index]
    }

    /// The cursor one step on, wrapping from the last palette to the first.
    pub open spec fn next(self) -> ThemeCursor {
        ThemeCursor { themes: self.themes, index: (self.index + 1) % (self.themes.len() as int) }
    }

    /// The cursor after `n` steps.
    pub open spec fn next_n(self, n: nat) -> ThemeCursor
        decreases n,
    {
        if n == 0 {
            self
        } else {
            self.next_n((n - 1) as nat).next()
        }
    }
}

/// The built-in palettes, in cycling order.
pub open spec fn builtin_themes() -> Seq<Theme> {
    seq![color_theme(), grayscale_theme(), theme(), theme_2()]
}

/// An ordered, non-empty list of palettes with a cursor on the active one.
pub struct ThemeSwitcher {
    current_theme_idx: usize,
    themes: Vec<Theme>,
}

impl View for ThemeSwitcher {
    type V = ThemeCursor;

    closed spec fn view(&self) -> ThemeCursor {
        ThemeCursor { themes: self.themes@, index: self.current_theme_idx as int }
    }
}

impl ThemeSwitcher {
    /// Validity of a switcher: that of its cursor.
    pub open spec fn wf(&self) -> bool {
        self@.wf()
    }

    /// A switcher over the built-in palettes, on the first of them.
    pub fn new() -> (s: Self)
        ensures
            s.wf(),
            s@.themes == builtin_themes(),
            s@.index == 0,
    {
        let mut themes: Vec<Theme> = Vec::new();
        themes.push(color_theme());
        themes.push(grayscale_theme());
        themes.push(theme());
        themes.push(theme_2());
        assert(themes@ =~= builtin_themes());
        Self { current_theme_idx: 0, themes }
    }

    /// A switcher over `themes`, on the first of them; `None` where the list
    /// is empty, since a cursor needs something to stand on.
    pub fn with_themes(themes: Vec<Theme>) -> (r: Option<Self>)
        ensures
            r.is_some() <==> themes@.len() > 0,
            r matches Some(s) ==> s.wf() && s@.themes == themes@ && s@.index == 0,
    {
        if themes.len() == 0 {
            None
        } else {
            Some(Self { current_theme_idx: 0, themes })
        }
    }

    /// Moves to the following palette, cyclically, and returns it.
    pub fn next(&mut self) -> (theme: &Theme)
        requires
            old(self).wf(),
        ensures
            final(self).wf(),
            final(self)@ == old(self)@.next(),
            *theme == old(self)@.next().current(),
    {
        let n = self.themes.len();
        assert(self.current_theme_idx < n);
        self.current_theme_idx = (self.current_theme_idx + 1) % n;
        &self.themes[self.current_theme_idx]
    }

    /// The active palette. The switcher is left as it was.
    pub fn current(&self) -> (theme: &Theme)
        requires
            self.wf(),
        ensures
            *theme == self@.current(),
    {
        &self.themes[self.current_theme_idx]
    }

    /// Position of the active palette in the list.
    pub fn index(&self) -> (i: usize)
        ensures
            i == self@.index,
    {
        self.current_theme_idx
    }

    /// Number of palettes.
    pub fn len(&self) -> (n: usize)
        ensures
            n == self@.themes.len(),
    {
        self.themes.len()
    }
}

/// Stepping keeps the palettes and the validity of the cursor.
pub proof fn lemma_next_n_keeps(c: ThemeCursor, n: nat)
    requires
        c.wf(),
    ensures
        c.next_n(n).wf(),
        c.next_n(n).themes == c.themes,
    decreases n,
{
    if n > 0 {
        lemma_next_n_keeps(c, (n - 1) as nat);
    }
}

/// After `n` steps from any position the cursor stands at that position plus
/// `n`, modulo the number of palettes; from the first palette, at `n` modulo
/// that number.
pub proof fn lemma_index_after_n_steps(c: ThemeCursor, n: nat)
    requires
        c.wf(),
    ensures
        c.next_n(n).index == (c.index + n) % (c.themes.len() as int),
        c.index == 0 ==> c.next_n(n).index == n as int % (c.themes.len() as int),
    decreases n,
{
    let len = c.themes.len() as int;
    if n == 0 {
        assert(c.index % len == c.index) by {
            vstd::arithmetic::div_mod::lemma_small_mod(c.index as nat, len as nat);
        }
    } else {
        let m = (n - 1) as nat;
        lemma_index_after_n_steps(c, m);
        lemma_next_n_keeps(c, m);
        assert(((c.index + m) % len + 1) % len == (c.index + m + 1) % len) by {
            vstd::arithmetic::div_mod::lemma_add_mod_noop(c.index + m, 1, len);
            vstd::arithmetic::div_mod::lemma_mod_twice(c.index + m, len);
            vstd::arithmetic::div_mod::lemma_add_mod_noop((c.index + m) % len, 1, len);
        }
    }
}

} // verus!
