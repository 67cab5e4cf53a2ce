//! Scripts and the other resources that a program reads by name.

use super::tokenizer::create_token_iterator;
use super::tokenizer::Token;
use super::tokenizer::TokenIterator;
use super::tokenizer::TokenStream;
use super::tokenizer::TokenStreamItem;
use super::tokenizer::TokenizerError;
use super::utility::decode_line;
use super::utility::IoFailure;
use super::value::CodeAddress;
use super::vm::VmExecutionState;
use super::vm::VmState;
use vstd::hash_map::StringHashMap;
use vstd::prelude::*;
use vstd::string::StringExecFns;
use vstd::utf8::decode_utf8;
use vstd::utf8::valid_utf8;

verus! {

/// What the virtual machine goes back to when a script returns: the script
/// that called it, and the mode, the state of execution and the program
/// counter of the machine at the call.
pub type ScriptCall = (TokenStream, VmState, VmExecutionState, CodeAddress);

/// The scripts that have called another script and wait for its return.
pub struct ScriptCallStack {
    stack: Vec<ScriptCall>,
}

impl View for ScriptCallStack {
    type V = Seq<ScriptCall>;

    closed spec fn view(&self) -> Seq<ScriptCall> {
        self.stack@
    }
}

impl ScriptCallStack {
    /// A stack without scripts.
    pub fn new() -> (r: Self)
        ensures
            r@ == Seq::<ScriptCall>::empty(),
    {
        ScriptCallStack { stack: Vec::new() }
    }

    /// Puts a script that has called another on top.
    pub fn push(
        &mut self,
        item: TokenStream,
        state: VmState,
        exec_state: VmExecutionState,
        pc: CodeAddress,
    )
        ensures
            final(self)@ == old(self)@.push((item, state, exec_state, pc)),
    {
        self.stack.push((item, state, exec_state, pc));
    }

    /// Takes the script on top off.
    pub fn pop(&mut self) -> (r: Option<ScriptCall>)
        ensures
            match r {
                Some(top) => old(self)@.len() > 0 && top == old(self)@.last() && final(self)@
                    == old(self)@.drop_last(),
                None => old(self)@.len() == 0 && final(self)@ == old(self)@,
            },
    {
        self.stack.pop()
    }
}

/// A script without tokens.
pub struct EmptyTokenStream {
    script_name: String,
}

impl EmptyTokenStream {
    /// The name under which the script goes.
    pub closed spec fn name(&self) -> Seq<char> {
        self.script_name@
    }

    /// A script without tokens, under a name that says that it is none.
    pub fn new() -> (r: EmptyTokenStream)
        ensures
            r.name() == "###DUMMY###"@,
    {
        EmptyTokenStream { script_name: "###DUMMY###".to_owned() }
    }
}

impl TokenIterator for EmptyTokenStream {
    fn next(&mut self) -> (r: Option<TokenStreamItem>)
        ensures
            r is None,
            *final(self) == *old(self),
    {
        None
    }

    fn next_token(&mut self) -> (r: Option<Token>)
        ensures
            r is None,
            *final(self) == *old(self),
    {
        None
    }

    fn script_name(&self) -> (r: &String)
        ensures
            r@ == self.name(),
    {
        &self.script_name
    }

    fn skip(&mut self, end_char: char) -> (r: Result<String, TokenizerError>)
        ensures
            r matches Ok(t) && t@.len() == 0,
            *final(self) == *old(self),
    {
        Ok(String::new())
    }
}

/// Why a resource could not be had.
#[derive(Debug)]
pub enum ResourceErrorReason {
    /// There is no resource of that name.
    ResourceNotFound(String),
    /// Reading the resource failed.
    IOError(IoFailure),
}

/// What the virtual machine needs from its host: a place to write to, and
/// the resources that programs name.
pub trait Resources {
    /// Writes `data` to the standard output.
    fn write_stdout(&self, data: &str);

    /// Writes `data` to the standard error.
    fn write_stderr(&self, data: &str);

    /// Whether the host may answer `r` where it is asked for the tokens of
    /// the resource `name`. A host of which nothing is stated may answer
    /// anything.
    open spec fn gives(&self, name: Seq<char>, r: Result<TokenStream, ResourceErrorReason>) -> bool {
        true
    }

    /// The tokens of the resource `resource_name`.
    fn get_token_iterator(&self, resource_name: &String) -> (r: Result<
        TokenStream,
        ResourceErrorReason,
    >)
        ensures
            self.gives(resource_name@, r),
    ;

    /// The text of the resource `resource_name`.
    fn get_string(&self, resource_name: &String) -> (r: Result<String, ResourceErrorReason>);
}

/// Where a resource is to be had.
#[derive(Debug)]
pub enum ResourceLocation {
    /// In a file below the project root: the root and the path below it.
    ProjectFile(String, String),
    /// Among the texts that are held in memory.
    Memory,
    /// On the standard input.
    StandardInput,
    /// In the environment variable of the given name.
    Environment(String),
    /// In the file at the given path.
    File(String),
    /// Nowhere: the name designates no resource.
    Nowhere,
}

/// Where a resource is to be had, with the names as sequences of
/// characters.
pub enum LocationView {
    ProjectFile(Seq<char>, Seq<char>),
    Memory,
    StandardInput,
    Environment(Seq<char>),
    File(Seq<char>),
    Nowhere,
}

impl View for ResourceLocation {
    type V = LocationView;

    open spec fn view(&self) -> LocationView {
        match *self {
            ResourceLocation::ProjectFile(root, path) => LocationView::ProjectFile(root@, path@),
            ResourceLocation::Memory => LocationView::Memory,
            ResourceLocation::StandardInput => LocationView::StandardInput,
            ResourceLocation::Environment(name) => LocationView::Environment(name@),
            ResourceLocation::File(path) => LocationView::File(path@),
            ResourceLocation::Nowhere => LocationView::Nowhere,
        }
    }
}

/// Where the resource `name` is to be had. The first character of the name
/// decides: a colon stands for a file below the project root, a dollar
/// sign for a text held in memory, an ampersand for an environment
/// variable. Of the names with a percent sign only `%STDIN` designates
/// something, the standard input. Every other name is the path of a file,
/// but the empty name, which designates nothing.
pub open spec fn location_of(root: Seq<char>, name: Seq<char>) -> LocationView {
    if name.len() == 0 {
        LocationView::Nowhere
    } else if name[0] == ':' {
        LocationView::ProjectFile(root, name.skip(1))
    } else if name[0] == '$' {
        LocationView::Memory
    } else if name[0] == '%' {
        if name == "%STDIN"@ {
            LocationView::StandardInput
        } else {
            LocationView::Nowhere
        }
    } else if name[0] == '&' {
        LocationView::Environment(name.skip(1))
    } else {
        LocationView::File(name)
    }
}

/// What a resource holds.
pub enum Content {
    /// A text.
    Text(String),
    /// Bytes as they were read.
    Bytes(Vec<u8>),
}

/// What the resource `name` holds. A text in memory is held under its
/// name. A resource outside is what the host has read of it: `reading` is
/// nothing where the host has read nothing, else the bytes or the failure
/// of the reading. An environment variable that could not be read does not
/// exist.
pub open spec fn content_of(
    memory: Map<Seq<char>, String>,
    root: Seq<char>,
    name: String,
    reading: Option<Result<Vec<u8>, IoFailure>>,
) -> Result<Content, ResourceErrorReason> {
    match location_of(root, name@) {
        LocationView::Nowhere => Err(ResourceErrorReason::ResourceNotFound(name)),
        LocationView::Memory => if memory.contains_key(name@) {
            Ok(Content::Text(memory[name@]))
        } else {
            Err(ResourceErrorReason::ResourceNotFound(name))
        },
        LocationView::Environment(_) => match reading {
            Some(Ok(bytes)) => Ok(Content::Bytes(bytes)),
            _ => Err(ResourceErrorReason::ResourceNotFound(name)),
        },
        _ => match reading {
            Some(Ok(bytes)) => Ok(Content::Bytes(bytes)),
            Some(Err(e)) => Err(ResourceErrorReason::IOError(e)),
            None => Err(ResourceErrorReason::ResourceNotFound(name)),
        },
    }
}

/// The resources of a program: the texts that are held in memory, and the
/// names under which the host finds the others.
pub struct StdResources {
    project_root: String,
    internal_resource: StringHashMap<String>,
}

impl StdResources {
    /// The directory below which the files of the project lie.
    pub closed spec fn root(&self) -> Seq<char> {
        self.project_root@
    }

    /// The texts that are held in memory, by their names.
    pub closed spec fn memory(&self) -> Map<Seq<char>, String> {
        self.internal_resource@
    }

    /// Resources without a text in memory.
    pub fn new(project_root: String) -> (r: Self)
        ensures
            r.root() == project_root@,
            r.memory() == Map::<Seq<char>, String>::empty(),
    {
        StdResources { project_root, internal_resource: StringHashMap::new() }
    }

    /// The directory below which the files of the project lie.
    pub fn project_root(&self) -> (r: &String)
        ensures
            r@ == self.root(),
    {
        &self.project_root
    }

    /// Holds `value` in memory under `name` with a dollar sign before it.
    pub fn add_resource(&mut self, name: String, value: String)
        ensures
            final(self).root() == old(self).root(),
            final(self).memory() == old(self).memory().insert(seq!['$'] + name@, value),
    {
        let mut key = "$".to_owned();
        key.append(name.as_str());
        proof {
            reveal_strlit("$");
            assert("$"@ =~= seq!['$']);
        }
        self.internal_resource.insert(key, value);
    }

    /// Where the resource `resource_name` is to be had.
    pub fn locate(&self, resource_name: &String) -> (r: ResourceLocation)
        ensures
            r@ == location_of(self.root(), resource_name@),
    {
        let name = resource_name.as_str();
        let n: usize = name.unicode_len();
        if n == 0 {
            return ResourceLocation::Nowhere;
        }
        let first: char = name.get_char(0);
        if first == ':' {
            ResourceLocation::ProjectFile(
                self.project_root.clone(),
                name.substring_char(1, n).to_owned(),
            )
        } else if first == '$' {
            ResourceLocation::Memory
        } else if first == '%' {
            let stdin = "%STDIN".to_owned();
            if *resource_name == stdin {
                ResourceLocation::StandardInput
            } else {
                ResourceLocation::Nowhere
            }
        } else if first == '&' {
            ResourceLocation::Environment(name.substring_char(1, n).to_owned())
        } else {
            ResourceLocation::File(resource_name.clone())
        }
    }

    /// What the resource `resource_name` holds, given what the host has
    /// read of it.
    fn content(&self, resource_name: &String, reading: Option<Result<Vec<u8>, IoFailure>>) -> (r:
        Result<Content, ResourceErrorReason>)
        ensures
            r == content_of(self.memory(), self.root(), *resource_name, reading),
    {
        match self.locate(resource_name) {
            ResourceLocation::Nowhere => Err(
                ResourceErrorReason::ResourceNotFound(resource_name.clone()),
            ),
            ResourceLocation::Memory => match self.internal_resource.get(resource_name.as_str()) {
                Some(value) => Ok(Content::Text(value.clone())),
                None => Err(ResourceErrorReason::ResourceNotFound(resource_name.clone())),
            },
            ResourceLocation::Environment(_) => match reading {
                Some(Ok(bytes)) => Ok(Content::Bytes(bytes)),
                _ => Err(ResourceErrorReason::ResourceNotFound(resource_name.clone())),
            },
            _ => match reading {
                Some(Ok(bytes)) => Ok(Content::Bytes(bytes)),
                Some(Err(e)) => Err(ResourceErrorReason::IOError(e)),
                None => Err(ResourceErrorReason::ResourceNotFound(resource_name.clone())),
            },
        }
    }

    /// The tokens of the resource `resource_name`. `reading` is what the
    /// host has read where [`StdResources::locate`] has sent it, and nothing
    /// where it has read nothing.
    pub fn get_token_iterator(
        &self,
        resource_name: &String,
        reading: Option<Result<Vec<u8>, IoFailure>>,
    ) -> (r: Result<TokenStream, ResourceErrorReason>)
        ensures
            match content_of(self.memory(), self.root(), *resource_name, reading) {
                Ok(content) => r matches Ok(stream) && stream.name() == resource_name@
                    && stream.reading() == (super::tokenizer::Reading {
                    upcoming: super::utility::items(
                        match content {
                            Content::Text(text) => vstd::utf8::encode_utf8(text@),
                            Content::Bytes(bytes) => bytes@,
                        },
                    ),
                    ahead: 0,
                    line: 1,
                    column: 0,
                }),
                Err(e) => r matches Err(f) && f == e,
            },
    {
        match self.content(resource_name, reading) {
            Ok(Content::Text(text)) => Ok(
                create_token_iterator(resource_name, text.as_str().as_bytes_vec()),
            ),
            Ok(Content::Bytes(bytes)) => Ok(create_token_iterator(resource_name, bytes)),
            Err(e) => Err(e),
        }
    }

    /// The text of the resource `resource_name`. `reading` is what the host
    /// has read where [`StdResources::locate`] has sent it, and nothing
    /// where it has read nothing. Bytes that are not valid UTF-8 are a
    /// failure of the reading.
    pub fn get_string(&self, resource_name: &String, reading: Option<Result<Vec<u8>, IoFailure>>) -> (r:
        Result<String, ResourceErrorReason>)
        ensures
            match content_of(self.memory(), self.root(), *resource_name, reading) {
                Ok(Content::Text(text)) => r matches Ok(t) && t == text,
                Ok(Content::Bytes(bytes)) => if valid_utf8(bytes@) {
                    r matches Ok(t) && t@ == decode_utf8(bytes@)
                } else {
                    r matches Err(f) && f == ResourceErrorReason::IOError(IoFailure::InvalidData)
                },
                Err(e) => r matches Err(f) && f == e,
            },
    {
        match self.content(resource_name, reading) {
            Ok(Content::Text(text)) => Ok(text),
            Ok(Content::Bytes(bytes)) => match decode_line(bytes) {
                Some(text) => Ok(text),
                None => Err(ResourceErrorReason::IOError(IoFailure::InvalidData)),
            },
            Err(e) => Err(e),
        }
    }
}

} // verus!
