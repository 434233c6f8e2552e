//! The wheel's configuration: its choices, its font and its palette.

use vstd::prelude::*;

use crate::color::{convert_hex, hex_color, Color};

verus! {

/// What a choice is, as text.
pub struct ChoiceView {
    pub name: Seq<char>,
    pub desc: Option<Seq<char>>,
}

/// What a wheel is, as text.
pub struct WheelView {
    pub pallete: Seq<Seq<char>>,
    pub font: Seq<char>,
    pub choices: Seq<ChoiceView>,
}

/// One sector of the wheel: what it is called and, optionally, a longer
/// description shown when it is selected.
#[derive(Debug, Clone)]
pub struct WheelChoice {
    pub name: String,
    pub desc: Option<String>,
}

impl View for WheelChoice {
    type V = ChoiceView;

    open spec fn view(&self) -> ChoiceView {
        ChoiceView {
            name: self.name@,
            desc: match self.desc {
                Some(desc) => Some(desc@),
                None => None,
            },
        }
    }
}

impl WheelChoice {
    pub fn new(name: &str, desc: Option<&str>) -> (choice: Self)
        ensures
            choice@.name == name@,
            choice@.desc == match desc {
                Some(desc) => Some(desc@),
                None => None::<Seq<char>>,
            },
    {
        Self {
            name: name.to_owned(),
            desc: match desc {
                Some(desc) => Some(desc.to_owned()),
                None => None,
            },
        }
    }
}

/// The texts that a list of strings holds, in order.
pub open spec fn texts(strings: Seq<String>) -> Seq<Seq<char>> {
    Seq::new(strings.len(), |i: int| strings[i]@)
}

/// The choices that a list holds, in order.
pub open spec fn choice_views(choices: Seq<WheelChoice>) -> Seq<ChoiceView> {
    Seq::new(choices.len(), |i: int| choices[i]@)
}

/// The colours that a palette denotes, entry by entry.
pub open spec fn pallete_colors(pallete: Seq<Seq<char>>) -> Seq<Color> {
    Seq::new(pallete.len(), |i: int| hex_color(pallete[i]))
}

/// The configuration that is used when none is supplied.
pub open spec fn default_wheel() -> WheelView {
    WheelView {
        pallete: seq!["#fb2646"@, "#0077ff"@],
        font: "assets/font/NotoSans.ttf"@,
        choices: seq![
            ChoiceView { name: "Yes"@, desc: None },
            ChoiceView { name: "No"@, desc: None },
        ],
    }
}

/// A wheel: the choices on it, the font their names are drawn in, and the
/// palette its sectors are coloured from.
#[derive(Debug, Clone)]
pub struct Wheel {
    /// The wheel's raw hex code color pallete.
    pub pallete: Vec<String>,
    /// Name or path to the font the wheel uses.
    pub font: String,
    pub choices: Vec<WheelChoice>,
}

impl View for Wheel {
    type V = WheelView;

    open spec fn view(&self) -> WheelView {
        WheelView {
            pallete: texts(self.pallete@),
            font: self.font@,
            choices: choice_views(self.choices@),
        }
    }
}

impl Wheel {
    /// The colours of the palette, one for each entry and in the same
    /// order. An entry that is no hex colour yields the pink sentinel.
    pub fn get_pallete(&self) -> (colors: Vec<Color>)
        ensures
            colors@ == pallete_colors(self@.pallete),
    {
        let mut colors: Vec<Color> = Vec::new();
        let mut i: usize = 0;
        while i < self.pallete.len()
            invariant
                i <= self.pallete.len(),
                colors@.len() == i,
                forall|j: int| 0 <= j < i ==> colors@[j] == hex_color(#[trigger] self.pallete@[j]@),
            decreases self.pallete.len() - i,
        {
            colors.push(convert_hex(self.pallete[i].as_str()));
            i += 1;
        }
        colors
    }
}

impl Default for Wheel {
    fn default() -> (wheel: Self)
        ensures
            wheel@ == default_wheel(),
    {
        let mut choices = Vec::new();

        choices.push(WheelChoice::new("Yes", None));
        choices.push(WheelChoice::new("No", None));

        let mut pallete = Vec::new();
        pallete.push("#fb2646".to_owned());
        pallete.push("#0077ff".to_owned());

        let wheel = Self { pallete, font: "assets/font/NotoSans.ttf".to_owned(), choices };
        assert(wheel@.pallete =~= default_wheel().pallete);
        assert(wheel@.choices =~= default_wheel().choices);
        wheel
    }
}

/// The colour of sector `i`: the palette is walked round and round.
pub fn segment_color(pallete: &Vec<Color>, i: usize) -> (color: Color)
    requires
        pallete@.len() > 0,
    ensures
        color == pallete@[i as int % pallete@.len() as int],
{
    pallete[i % pallete.len()]
}

} // verus!
