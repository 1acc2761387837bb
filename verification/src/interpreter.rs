//! The seam between a decoded module and whatever runs it. Nothing is run
//! here: the interpreter holds a program and reports that it is done.
use crate::types::ValueType;
use crate::view::ProgramView;
use vstd::prelude::*;

verus! {

/// A program that an interpreter can hold.
pub trait InterperableProgram {

}

impl InterperableProgram for ProgramView<'_> {

}

/// Holds a program to run.
pub struct Interpreter<P> {
    program: P,
}

/// What the host answers when the interpreter hands it a unit of work.
pub struct ExecutionResponse;

/// A unit of work that the interpreter hands out.
pub enum ExecutionUnit {
    /// Nothing is left to do.
    Complete,
}

impl<P: InterperableProgram> Interpreter<P> {
    /// The program that the interpreter holds.
    pub closed spec fn program(&self) -> P {
        self.program
    }

    /// An interpreter for the program `p`.
    pub fn new(p: P) -> (r: Self)
        ensures
            r.program() == p,
    {
        Interpreter { program: p }
    }

    /// Asks for the function `name` to be called on `params`. Nothing runs:
    /// the interpreter stays as it is.
    pub fn call(&mut self, name: &str, params: &[ValueType])
        ensures
            *final(self) == *old(self),
    {
    }

    /// The next unit of work, which is always that nothing is left to do.
    pub fn next(&self) -> (r: ExecutionUnit)
        ensures
            r is Complete,
    {
        ExecutionUnit::Complete
    }

    /// Takes the host's answer to a unit of work. The interpreter stays as it is.
    pub fn execute(&mut self, _response: ExecutionResponse)
        ensures
            *final(self) == *old(self),
    {
    }
}

impl ExecutionUnit {
    /// Carries the unit of work out, which leaves it as it is, and gives the
    /// answer for the interpreter.
    pub fn evaluate(&mut self) -> (r: ExecutionResponse)
        ensures
            *final(self) == *old(self),
    {
        ExecutionResponse
    }
}

} // verus!
