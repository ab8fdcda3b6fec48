//! Display lines: how a task is shown when the list is printed.

use vstd::prelude::*;
use crate::task::{Task, TaskView};

verus! {

/// The character of a decimal digit.
pub open spec fn digit(d: nat) -> char {
    if d == 0 {
        '0'
    } else if d == 1 {
        '1'
    } else if d == 2 {
        '2'
    } else if d == 3 {
        '3'
    } else if d == 4 {
        '4'
    } else if d == 5 {
        '5'
    } else if d == 6 {
        '6'
    } else if d == 7 {
        '7'
    } else if d == 8 {
        '8'
    } else {
        '9'
    }
}

/// A number in decimal notation, without leading zeros.
pub open spec fn decimal(n: nat) -> Seq<char>
    decreases n,
{
    if n < 10 {
        seq![digit(n)]
    } else {
        decimal(n / 10).push(digit(n % 10))
    }
}

/// The completion marker: `x` for a finished task, a blank for a pending one.
pub open spec fn marker(done: bool) -> char {
    if done {
        'x'
    } else {
        ' '
    }
}

/// The display line of a task: its identifier, a full stop, the completion
/// marker in square brackets, and the description.
pub open spec fn line(task: TaskView) -> Seq<char> {
    decimal(task.id) + seq!['.', ' ', '[', marker(task.done), ']', ' '] + task.description
}

/// The display lines of a list, one for each task, in order.
pub open spec fn lines(tasks: Seq<TaskView>) -> Seq<Seq<char>> {
    tasks.map_values(|task: TaskView| line(task))
}

/// What each string of a sequence holds.
pub open spec fn texts(strings: Seq<String>) -> Seq<Seq<char>> {
    strings.map_values(|s: String| s@)
}

fn digit_text(d: u32) -> (text: &'static str)
    requires
        d < 10,
    ensures
        text@ == seq![digit(d as nat)],
{
    proof {
        reveal_strlit("0");
        reveal_strlit("1");
        reveal_strlit("2");
        reveal_strlit("3");
        reveal_strlit("4");
        reveal_strlit("5");
        reveal_strlit("6");
        reveal_strlit("7");
        reveal_strlit("8");
        reveal_strlit("9");
    }
    let text = if d == 0 {
        "0"
    } else if d == 1 {
        "1"
    } else if d == 2 {
        "2"
    } else if d == 3 {
        "3"
    } else if d == 4 {
        "4"
    } else if d == 5 {
        "5"
    } else if d == 6 {
        "6"
    } else if d == 7 {
        "7"
    } else if d == 8 {
        "8"
    } else {
        "9"
    };
    assert(text@ =~= seq![digit(d as nat)]);
    text
}

fn append_decimal(out: &mut String, n: u32)
    ensures
        final(out)@ == old(out)@ + decimal(n as nat),
    decreases n,
{
    if n >= 10 {
        append_decimal(out, n / 10);
    }
    out.append(digit_text(n % 10));
    assert(out@ =~= old(out)@ + decimal(n as nat));
}

/// The number in decimal notation.
pub fn decimal_text(n: u32) -> (text: String)
    ensures
        text@ == decimal(n as nat),
{
    let mut text = String::new();
    append_decimal(&mut text, n);
    assert(text@ =~= decimal(n as nat));
    text
}

impl Task {
    /// The display line of the task.
    pub fn line(&self) -> (text: String)
        ensures
            text@ == line(self@),
    {
        let mut text = decimal_text(self.id);
        proof {
            reveal_strlit(". [");
            reveal_strlit("x");
            reveal_strlit(" ");
            reveal_strlit("] ");
        }
        text.append(". [");
        text.append(if self.done { "x" } else { " " });
        text.append("] ");
        text.append(self.description.as_str());
        assert(text@ =~= line(self@));
        text
    }
}

} // verus!
