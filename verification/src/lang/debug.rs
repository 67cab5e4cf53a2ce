//! Where compiled code came from.
//!
//! For each instruction the store can keep the script, the line and the
//! column of the token it was compiled from. It also follows the chain of
//! the scripts that called each other, to know which one is being read.

use super::tokenizer::ColumnNumber;
use super::tokenizer::LineNumber;
use super::value::Address;
use super::value::CodeAddress;
use vstd::prelude::*;

verus! {

/// What stands for the name of a script: its place in the list of names.
pub type ScriptNameHandle = usize;

/// Where an instruction came from.
#[derive(Debug, Clone, Copy, PartialEq, Eq, Structural)]
pub struct CodeDebugInfo {
    /// The script.
    pub script_name_handle: ScriptNameHandle,
    /// The line in the script.
    pub line_number: LineNumber,
    /// The column in the line.
    pub column_number: ColumnNumber,
}

/// What is known of the origin of the compiled code.
pub struct DebugInfoStore {
    code_mapping: Vec<Option<CodeDebugInfo>>,
    script_call_stack: Vec<ScriptNameHandle>,
    script_name_list: Vec<String>,
    current_script_name_handle: ScriptNameHandle,
}

/// `infos` made at least `len` long with entries that hold nothing.
pub open spec fn padded(infos: Seq<Option<CodeDebugInfo>>, len: int) -> Seq<Option<CodeDebugInfo>> {
    if infos.len() >= len {
        infos
    } else {
        infos + Seq::new((len - infos.len()) as nat, |i: int| None::<CodeDebugInfo>)
    }
}

impl DebugInfoStore {
    /// What is recorded for each index of the code buffer.
    pub closed spec fn infos(&self) -> Seq<Option<CodeDebugInfo>> {
        self.code_mapping@
    }

    /// The names of all scripts that were called, in the order of the
    /// calls.
    pub closed spec fn names(&self) -> Seq<String> {
        self.script_name_list@
    }

    /// The scripts that were called and have not returned, the innermost
    /// last.
    pub closed spec fn chain(&self) -> Seq<ScriptNameHandle> {
        self.script_call_stack@
    }

    /// The script that is being read.
    pub closed spec fn current(&self) -> ScriptNameHandle {
        self.current_script_name_handle
    }

    /// A store that knows nothing.
    pub fn new() -> (r: DebugInfoStore)
        ensures
            r.infos() == Seq::<Option<CodeDebugInfo>>::empty(),
            r.names() == Seq::<String>::empty(),
            r.chain() == Seq::<ScriptNameHandle>::empty(),
            r.current() == 0,
    {
        DebugInfoStore {
            code_mapping: Vec::new(),
            script_call_stack: Vec::new(),
            script_name_list: Vec::new(),
            current_script_name_handle: 0,
        }
    }

    /// What is recorded for the instruction at `address`.
    pub fn get(&self, address: CodeAddress) -> (r: Option<&CodeDebugInfo>)
        ensures
            match r {
                Some(x) => address.0 matches Address::Entity(a) && a < self.infos().len()
                    && self.infos()[a as int] == Some(*x),
                None => match address.0 {
                    Address::Entity(a) => a >= self.infos().len() || self.infos()[a as int]
                        is None,
                    Address::Root => true,
                },
            },
    {
        match address.0 {
            Address::Entity(a) => {
                if a < self.code_mapping.len() {
                    match &self.code_mapping[a] {
                        Some(x) => Some(x),
                        None => None,
                    }
                } else {
                    None
                }
            },
            Address::Root => None,
        }
    }

    /// The name of the script that is being read.
    pub fn current_script_name(&self) -> (r: Option<&String>)
        ensures
            match r {
                Some(n) => self.current() < self.names().len() && *n == self.names()[self.current() as int],
                None => self.current() >= self.names().len(),
            },
    {
        self.get_script_name(self.current_script_name_handle)
    }

    /// The name that `script_name_handle` stands for.
    pub fn get_script_name(&self, script_name_handle: ScriptNameHandle) -> (r: Option<&String>)
        ensures
            match r {
                Some(n) => script_name_handle < self.names().len() && *n
                    == self.names()[script_name_handle as int],
                None => script_name_handle >= self.names().len(),
            },
    {
        if script_name_handle < self.script_name_list.len() {
            Some(&self.script_name_list[script_name_handle])
        } else {
            None
        }
    }

    /// Records the call of the script `script_name`: it is the one being
    /// read from now on.
    pub fn call_script(&mut self, script_name: &String)
        ensures
            final(self).names() == old(self).names().push(*script_name),
            final(self).current() == old(self).names().len(),
            final(self).chain() == old(self).chain().push(old(self).names().len() as usize),
            final(self).infos() == old(self).infos(),
    {
        self.script_name_list.push(script_name.clone());
        self.current_script_name_handle = self.script_name_list.len() - 1;
        self.script_call_stack.push(self.current_script_name_handle);
    }

    /// Records the return from a script: the one that called it is being
    /// read again. Where no script is left, the first name stands for the
    /// one being read.
    pub fn return_script(&mut self)
        ensures
            final(self).names() == old(self).names(),
            final(self).infos() == old(self).infos(),
            final(self).chain() == if old(self).chain().len() > 0 {
                old(self).chain().drop_last()
            } else {
                old(self).chain()
            },
            final(self).current() == if final(self).chain().len() > 0 {
                final(self).chain().last()
            } else {
                0
            },
    {
        self.script_call_stack.pop();
        let n: usize = self.script_call_stack.len();
        self.current_script_name_handle = if n > 0 {
            self.script_call_stack[n - 1]
        } else {
            0
        };
    }

    /// Records that the instruction at `address` came from the given line
    /// and column of the script that is being read. Nothing is recorded for
    /// the root address.
    pub fn put(&mut self, address: CodeAddress, line_number: LineNumber, column_number: ColumnNumber)
        requires
            address.0 matches Address::Entity(a) ==> a < usize::MAX,
        ensures
            final(self).names() == old(self).names(),
            final(self).chain() == old(self).chain(),
            final(self).current() == old(self).current(),
            final(self).infos() == match address.0 {
                Address::Entity(a) => padded(old(self).infos(), a + 1).update(
                    a as int,
                    Some(
                        CodeDebugInfo {
                            script_name_handle: old(self).current(),
                            line_number,
                            column_number,
                        },
                    ),
                ),
                Address::Root => old(self).infos(),
            },
    {
        match address.0 {
            Address::Entity(a) => {
                while self.code_mapping.len() < a + 1
                    invariant
                        a < usize::MAX,
                        self.script_call_stack == old(self).script_call_stack,
                        self.script_name_list == old(self).script_name_list,
                        self.current_script_name_handle == old(self).current_script_name_handle,
                        self.code_mapping@.len() >= old(self).code_mapping@.len(),
                        self.code_mapping@.len() <= a + 1 || self.code_mapping@ == old(
                            self,
                        ).code_mapping@,
                        self.code_mapping@ == padded(
                            old(self).code_mapping@,
                            self.code_mapping@.len() as int,
                        ),
                    decreases a + 1 - self.code_mapping@.len(),
                {
                    self.code_mapping.push(None);
                }
                self.code_mapping[a] = Some(
                    CodeDebugInfo {
                        script_name_handle: self.current_script_name_handle,
                        line_number,
                        column_number,
                    },
                );
            },
            Address::Root => {},
        };
    }
}

} // verus!
