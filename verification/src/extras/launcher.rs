//! The rules of a task that runs an agent as a subprocess and feeds it
//! through its standard input.
use vstd::prelude::*;
use vstd::string::*;

verus! {

/// What a supervisor tells a running task.
#[derive(Clone, Debug, PartialEq)]
pub enum Instruction {
    /// Write this text to the standard input of the subprocess.
    Input(String),
    /// End the subprocess.
    Exit,
}

/// What a task does on an instruction.
#[derive(Clone, Debug, PartialEq)]
pub enum Directive {
    /// Write these bytes to the standard input of the subprocess, and flush.
    Feed(Vec<u8>),
    /// Kill the subprocess and stop listening.
    Stop,
}

/// The number of instructions that may wait for a task.
pub const CONTROL_CAPACITY: usize = 10;

/// The mathematical values of a list of texts.
pub open spec fn texts(s: Seq<String>) -> Seq<Seq<char>> {
    s.map_values(|t: String| t@)
}

/// What a task does on `instruction`.
pub open spec fn directive_of(instruction: Instruction) -> Result<Seq<u8>, ()> {
    match instruction {
        Instruction::Input(text) => Ok(vstd::utf8::encode_utf8(text@)),
        Instruction::Exit => Err(()),
    }
}

/// The mathematical value of a directive.
pub open spec fn directive_view(directive: Directive) -> Result<Seq<u8>, ()> {
    match directive {
        Directive::Feed(bytes) => Ok(bytes@),
        Directive::Stop => Err(()),
    }
}

/// The command line of a task: the command, then its arguments.
pub fn command_line(command: &String, args: &Vec<String>) -> (line: Vec<String>)
    ensures
        texts(line@) == seq![command@] + texts(args@),
{
    let mut line: Vec<String> = Vec::new();
    line.push(command.clone());
    let mut i: usize = 0;
    while i < args.len()
        invariant
            i <= args.len(),
            line@.len() == i + 1,
            line@[0]@ == command@,
            forall|k: int| 1 <= k <= i ==> (#[trigger] line@[k])@ == args@[k - 1]@,
        decreases args.len() - i,
    {
        line.push(args[i].clone());
        i = i + 1;
    }
    assert(texts(line@) =~= seq![command@] + texts(args@));
    line
}

/// What a task does on `instruction`: it feeds an input to the subprocess,
/// byte for byte, and stops on the instruction to exit.
pub fn directive(instruction: &Instruction) -> (d: Directive)
    ensures
        directive_view(d) == directive_of(*instruction),
{
    match instruction {
        Instruction::Input(text) => Directive::Feed(text.as_str().as_bytes_vec()),
        Instruction::Exit => Directive::Stop,
    }
}

/// Whether a subprocess that ended with `status` ended as it should.
pub fn exited_cleanly(status: u32) -> (clean: bool)
    ensures
        clean == (status == 0),
{
    status == 0
}

} // verus!
