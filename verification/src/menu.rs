//! Models one full redraw of the menu: which lines are printed and
//! which one is emphasized.

use vstd::prelude::*;
use vstd::string::*;

verus! {

/// One line of a redraw: its text and whether it is drawn emphasized.
pub struct MenuLine {
    pub text: String,
    pub bold: bool,
}

/// The usage hint printed under the options.
pub open spec fn hint_view() -> Seq<char> {
    "Use up/down arrows to navigate, Enter to select"@
}

/// Computes one full redraw: each option on its own line, the selected
/// one emphasized, and the usage hint underneath.
pub fn render_lines(options: &Vec<String>, selected: usize) -> (r: Vec<MenuLine>)
    ensures
        r@.len() == options@.len() + 1,
        forall|i: int| 0 <= i < options@.len() ==> r@[i].text@ == options@[i]@,
        forall|i: int| 0 <= i < options@.len() ==> (r@[i].bold <==> i == selected as int),
        r@[options@.len() as int].text@ == hint_view(),
        !r@[options@.len() as int].bold,
{
    let mut r: Vec<MenuLine> = Vec::new();
    let mut i: usize = 0;
    while i < options.len()
        invariant
            i <= options@.len(),
            r@.len() == i,
            forall|j: int| 0 <= j < i ==> r@[j].text@ == options@[j]@,
            forall|j: int| 0 <= j < i ==> (r@[j].bold <==> j == selected as int),
        decreases options@.len() - i,
    {
        let text = options[i].clone();
        r.push(MenuLine { text, bold: i == selected });
        i = i + 1;
    }
    let hint = String::from_str("Use up/down arrows to navigate, Enter to select");
    r.push(MenuLine { text: hint, bold: false });
    r
}

} // verus!
