//! Parts of a request that the engine carries along for the backend.

use vstd::prelude::*;

verus! {

/// A table that makes chosen tokens more or less likely.
#[derive(Debug, Clone, PartialEq, Eq)]
pub struct LogitBias {
    /// Token id and the bias for it, from -100 (never) to 100 (always).
    pub entries: Vec<(u32, i8)>,
}

impl LogitBias {
    /// A copy of the table.
    pub fn duplicate(&self) -> (copy: LogitBias)
        ensures
            copy.entries@ == self.entries@,
    {
        let mut entries: Vec<(u32, i8)> = Vec::new();
        let mut i: usize = 0;
        while i < self.entries.len()
            invariant
                i <= self.entries.len(),
                entries@ == self.entries@.take(i as int),
            decreases self.entries.len() - i,
        {
            entries.push(self.entries[i]);
            assert(entries@ =~= self.entries@.take(i + 1));
            i += 1;
        }
        assert(self.entries@.take(i as int) =~= self.entries@);
        LogitBias { entries }
    }
}

/// A tool that the model may call.
#[derive(Debug, Clone, PartialEq, Eq)]
pub struct ToolDefinition {
    pub name: String,
    pub description: String,
    /// The JSON schema of the tool's arguments, as text.
    pub parameters: String,
}

/// Whether and which tool the model has to call.
#[derive(Debug, Clone, PartialEq, Eq)]
pub enum ToolChoice {
    /// The model decides.
    Auto,
    /// No tool is called.
    Never,
    /// Some tool is called.
    Required,
    /// The named tool is called.
    Function(String),
}

} // verus!
