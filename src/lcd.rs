//! Commands for the character display. The display process reads one
//! command per line; its arguments are named.
use vstd::prelude::*;

verus! {

/// The display's operations.
#[derive(Clone, Copy, Debug, PartialEq, Eq, Structural)]
pub enum LCDProgramm {
    Clear,
    Move,
    Bcklight,
    CursorMode,
    ShiftDisplay,
    Home,
    Write,
}

/// A named argument's value.
#[derive(Clone, Debug)]
pub enum LCDArg {
    String(String),
    Int(i128),
    Bool(bool),
}

/// One command: an operation and its named arguments, each name at most once.
#[derive(Clone, Debug)]
pub struct LCDCommand {
    pub cmd: LCDProgramm,
    pub args: Option<Vec<(String, LCDArg)>>,
}

impl LCDCommand {
    /// No argument name occurs twice.
    pub open spec fn wf(&self) -> bool {
        self.args matches Some(a) ==> forall|i: int, j: int|
            0 <= i < j < a@.len() ==> a@[i].0@ != a@[j].0@
    }

    /// Clears the display.
    pub fn clear() -> (c: LCDCommand)
        ensures
            c.wf(),
            c.cmd == LCDProgramm::Clear,
            c.args.is_none(),
    {
        LCDCommand { cmd: LCDProgramm::Clear, args: None }
    }

    /// Moves the cursor to the top-left corner.
    pub fn home() -> (c: LCDCommand)
        ensures
            c.wf(),
            c.cmd == LCDProgramm::Home,
            c.args.is_none(),
    {
        LCDCommand { cmd: LCDProgramm::Home, args: None }
    }

    /// Moves the cursor to column `x` of row `y`.
    pub fn move_to(x: i128, y: i128) -> (c: LCDCommand)
        ensures
            c.wf(),
            c.cmd == LCDProgramm::Move,
            c.args matches Some(a) && a@.len() == 2 && a@[0].0@ == "y"@ && a@[0].1 == LCDArg::Int(y)
                && a@[1].0@ == "x"@ && a@[1].1 == LCDArg::Int(x),
    {
        proof {
            reveal_strlit("x");
            reveal_strlit("y");
        }
        let mut a: Vec<(String, LCDArg)> = Vec::new();
        a.push((String::from_str("y"), LCDArg::Int(y)));
        a.push((String::from_str("x"), LCDArg::Int(x)));
        assert(a@[0].0@[0] != a@[1].0@[0]);
        LCDCommand { cmd: LCDProgramm::Move, args: Some(a) }
    }

    /// Writes `text` at the cursor.
    pub fn write(text: String) -> (c: LCDCommand)
        ensures
            c.wf(),
            c.cmd == LCDProgramm::Write,
            c.args matches Some(a) && a@.len() == 1 && a@[0].0@ == "text"@ && a@[0].1 == LCDArg::String(text),
    {
        let mut a: Vec<(String, LCDArg)> = Vec::new();
        a.push((String::from_str("text"), LCDArg::String(text)));
        LCDCommand { cmd: LCDProgramm::Write, args: Some(a) }
    }
}

} // verus!
