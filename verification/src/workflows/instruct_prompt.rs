//! What the caller tells a workflow: instructions, and the material they are about.

use vstd::prelude::*;
use vstd::string::*;
use crate::requests::stop_sequence::opt_view;
use crate::text::clone_opt;

verus! {

/// The caller's instructions and the supporting material.
#[derive(Debug, Clone, PartialEq, Eq)]
pub struct InstructPrompt {
    pub instructions: Option<String>,
    pub supporting_material: Option<String>,
}

impl InstructPrompt {
    /// Neither instructions nor material.
    pub fn new() -> (prompt: InstructPrompt)
        ensures
            prompt.instructions is None,
            prompt.supporting_material is None,
    {
        InstructPrompt { instructions: None, supporting_material: None }
    }

    /// Sets the instructions.
    pub fn set_instructions(&mut self, text: &str)
        ensures
            opt_view(final(self).instructions) == Some(text@),
            final(self).supporting_material == old(self).supporting_material,
    {
        self.instructions = Some(text.to_owned());
    }

    /// Sets the supporting material.
    pub fn set_supporting_material(&mut self, text: &str)
        ensures
            opt_view(final(self).supporting_material) == Some(text@),
            final(self).instructions == old(self).instructions,
    {
        self.supporting_material = Some(text.to_owned());
    }

    /// Forgets instructions and material.
    pub fn reset_instruct_prompt(&mut self)
        ensures
            final(self).instructions is None,
            final(self).supporting_material is None,
    {
        self.instructions = None;
        self.supporting_material = None;
    }

    /// The instructions, if any were given.
    pub fn build_instructions(&self) -> (text: Option<String>)
        ensures
            text == self.instructions,
    {
        clone_opt(&self.instructions)
    }

    /// The supporting material, if any was given.
    pub fn build_supporting_material(&self) -> (text: Option<String>)
        ensures
            text == self.supporting_material,
    {
        clone_opt(&self.supporting_material)
    }
}

} // verus!
