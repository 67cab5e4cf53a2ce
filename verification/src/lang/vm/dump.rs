//! What is written of a machine for the eyes of a programmer.

use super::Vm;
use crate::lang::debug::DebugInfoStore;
use crate::lang::debug::ScriptNameHandle;
use crate::lang::text::Text;
use crate::lang::value::Address;
use crate::lang::value::CallFrame;
use crate::lang::value::CodeAddress;
use crate::lang::value::DataAddress;
use crate::lang::value::DataStackAddress;
use crate::lang::value::DebugLabel;
use crate::lang::value::EnvironmentStackAddress;
use crate::lang::value::EnvironmentStackRelativeAddress;
use crate::lang::value::Instruction;
use crate::lang::value::ReturnStackAddress;
use crate::lang::word::code_rank;
use crate::lang::word::Dictionary;
use vstd::prelude::*;
use vstd::string::StringExecFns;

verus! {

/// The name that `handle` stands for in `store`, if it stands for one.
pub open spec fn script_of(store: DebugInfoStore, handle: ScriptNameHandle) -> Option<String> {
    if handle < store.names().len() {
        Some(store.names()[handle as int])
    } else {
        None
    }
}

/// A line that holds a label and a text.
pub open spec fn labelled(label: Seq<char>, text: Seq<char>) -> Seq<char> {
    label + text + "\n"@
}

/// Appends to `f` a line that holds `label` and what is written for
/// `value`.
fn write_labelled<V: Text>(label: &str, value: &V, f: &mut String)
    ensures
        final(f)@ == old(f)@ + labelled(label@, value.text()),
{
    f.append(label);
    value.write_text(f);
    f.append("\n");
}

/// What is written of where the machine stands: a line each for the mode,
/// the program counter, the script and the place in it.
pub open spec fn vm_place_text<T, E, R, P>(v: Vm<T, E, R, P>) -> Seq<char> {
    labelled("vm state: "@, v.state.text()) + labelled(
        "program counter: "@,
        v.program_counter.text(),
    ) + labelled(
        "script name: "@,
        match script_of(v.debug_info_store, v.debug_info_store.current()) {
            Some(name) => name@,
            None => Seq::empty(),
        },
    ) + labelled("line number: "@, v.current_line_number.text()) + labelled(
        "column number: "@,
        v.current_column_number.text(),
    )
}

/// What is written of the sizes of the machine: a line each for the two
/// dictionaries, the four stacks and the two buffers.
pub open spec fn vm_sizes_text<T, E, R, P>(v: Vm<T, E, R, P>) -> Seq<char> {
    labelled("size of word dictionary: "@, (v.word_dictionary.count() as usize).text())
        + labelled("size of local dictionary: "@, (v.local_dictionary.count() as usize).text())
        + labelled(
        "size of data stack: "@,
        DataStackAddress(v.data_stack@.len() as usize).text(),
    ) + labelled(
        "size of return stack: "@,
        ReturnStackAddress(v.return_stack@.len() as usize).text(),
    ) + labelled(
        "size of environment stack: "@,
        EnvironmentStackAddress(v.env_stack@.len() as usize).text(),
    ) + labelled("size of control flow stack: "@, (v.controlflow_stack@.len() as usize).text())
        + labelled(
        "size of data buffer: "@,
        DataAddress(Address::Entity(v.data_buffer@.len() as usize)).text(),
    ) + labelled(
        "size of code buffer: "@,
        CodeAddress(Address::Entity(v.code_buffer@.len() as usize)).text(),
    )
}

/// What is written of the state of the machine: where it stands, and its
/// sizes.
pub open spec fn vm_state_text<T, E, R, P>(v: Vm<T, E, R, P>) -> Seq<char> {
    vm_place_text(v) + vm_sizes_text(v)
}

/// Appends to `f` what is written of where the machine stands.
fn dump_vm_place<T, E, R, P: Copy>(v: &Vm<T, E, R, P>, f: &mut String)
    ensures
        final(f)@ == old(f)@ + vm_place_text(*v),
{
    write_labelled("vm state: ", &v.state(), f);
    write_labelled("program counter: ", &v.program_counter(), f);
    let nothing = String::new();
    match v.debug_info_store().current_script_name() {
        Some(script_name) => write_labelled("script name: ", script_name, f),
        None => write_labelled("script name: ", &nothing, f),
    }
    write_labelled("line number: ", &v.line_number(), f);
    write_labelled("column number: ", &v.column_number(), f);
}

/// Appends to `f` what is written of the sizes of the machine.
fn dump_vm_sizes<T, E, R, P: Copy>(v: &Vm<T, E, R, P>, f: &mut String)
    ensures
        final(f)@ == old(f)@ + vm_sizes_text(*v),
{
    write_labelled("size of word dictionary: ", &v.word_dictionary().len(), f);
    write_labelled("size of local dictionary: ", &v.local_dictionary().len(), f);
    write_labelled("size of data stack: ", &v.data_stack().here(), f);
    write_labelled("size of return stack: ", &v.return_stack().here(), f);
    write_labelled("size of environment stack: ", &v.env_stack().here(), f);
    write_labelled("size of control flow stack: ", &v.controlflow_stack().here(), f);
    write_labelled("size of data buffer: ", &v.data_buffer().here(), f);
    write_labelled("size of code buffer: ", &v.code_buffer().here(), f);
}

/// Appends to `f` what is written of the state of the machine.
pub fn dump_vm_sate<T, E, R, P: Copy>(v: &Vm<T, E, R, P>, f: &mut String)
    ensures
        final(f)@ == old(f)@ + vm_state_text(*v),
{
    dump_vm_place(v, f);
    dump_vm_sizes(v, f);
}

/// Appends to `f` the names of the completed words with the words.
pub fn dump_all_word<T, E, R, P>(v: &Vm<T, E, R, P>, f: &mut String)
    ensures
        final(f)@ == old(f)@ + v.word_dictionary.text(),
{
    v.word_dictionary().write_text(f);
}

/// The place in a script, between bars: the name of the script, the line
/// and the column, and a hyphen for what is not known.
pub open spec fn place_text(name: Option<String>, place: Option<(u32, u32)>) -> Seq<char> {
    "|"@ + (match name {
        Some(n) => n@,
        None => "-"@,
    }) + ","@ + (match place {
        Some(p) => p.0.text() + ","@ + p.1.text(),
        None => "-,-"@,
    }) + "|"@
}

/// The place in a script that the instruction at `adr` was compiled from.
/// For the root address it is the place at which the machine reads.
pub open spec fn code_mapping_text<T, E, R, P>(v: Vm<T, E, R, P>, adr: CodeAddress) -> Seq<char> {
    let store = v.debug_info_store;
    match adr.0 {
        Address::Entity(a) => if a < store.infos().len() && store.infos()[a as int] is Some {
            let info = store.infos()[a as int]->0;
            place_text(
                script_of(store, info.script_name_handle),
                Some((info.line_number, info.column_number)),
            )
        } else {
            place_text(None, None)
        },
        Address::Root => place_text(
            script_of(store, store.current()),
            Some((v.current_line_number, v.current_column_number)),
        ),
    }
}

/// Appends `name`, or a hyphen where there is none, then the line and the
/// column, all between bars.
fn write_place(name: Option<&String>, line: u32, column: u32, f: &mut String)
    ensures
        final(f)@ == old(f)@ + place_text(
            match name {
                Some(n) => Some(*n),
                None => None,
            },
            Some((line, column)),
        ),
{
    f.append("|");
    match name {
        Some(n) => f.append(n.as_str()),
        None => f.append("-"),
    }
    f.append(",");
    line.write_text(f);
    f.append(",");
    column.write_text(f);
    f.append("|");
}

/// Appends to `f` the place in a script that the instruction at `adr` was
/// compiled from.
pub fn dump_code_mapping<T, E, R, P>(v: &Vm<T, E, R, P>, adr: CodeAddress, f: &mut String)
    ensures
        final(f)@ == old(f)@ + code_mapping_text(*v, adr),
{
    match adr.0 {
        Address::Entity(_) => {
            match v.debug_info_store().get(adr) {
                Some(db) => {
                    write_place(
                        v.debug_info_store().get_script_name(db.script_name_handle),
                        db.line_number,
                        db.column_number,
                        f,
                    );
                },
                None => {
                    f.append("|-,-,-|");
                    proof {
                        reveal_strlit("|-,-,-|");
                        reveal_strlit("|");
                        reveal_strlit("-");
                        reveal_strlit(",");
                        reveal_strlit("-,-");
                    }
                },
            }
        },
        Address::Root => {
            write_place(
                v.debug_info_store().current_script_name(),
                v.line_number(),
                v.column_number(),
                f,
            );
        },
    }
}

/// The line of the instruction at `adr`, without its end: the address, the
/// instruction, and the place in a script that it was compiled from.
/// Nothing is written for an address beyond the code.
pub open spec fn code_text<T: Text, E, R, P>(v: Vm<T, E, R, P>, adr: CodeAddress) -> Seq<char> {
    match adr.0 {
        Address::Entity(a) => if a < v.code_buffer@.len() {
            "  "@ + adr.text() + ": "@ + v.code_buffer@[a as int].text() + " "@
                + code_mapping_text(v, adr)
        } else {
            Seq::empty()
        },
        Address::Root => "  _: _ "@ + code_mapping_text(v, adr),
    }
}

/// Appends to `f` the line of the instruction at `adr`, without its end.
pub fn dump_code<T: Text, E, R, P: Copy>(v: &Vm<T, E, R, P>, adr: CodeAddress, f: &mut String)
    ensures
        final(f)@ == old(f)@ + code_text(*v, adr),
{
    match adr.0 {
        Address::Entity(_) => {
            match v.code_buffer().get(adr) {
                Ok(inst) => {
                    f.append("  ");
                    adr.write_text(f);
                    f.append(": ");
                    inst.write_text(f);
                    f.append(" ");
                    dump_code_mapping(v, adr, f);
                },
                Err(_) => {
                },
            }
        },
        Address::Root => {
            f.append("  _: _ ");
            dump_code_mapping(v, adr, f);
        },
    }
}

/// The lines of the instructions from the index `i` on, up to the first
/// that ends a word, or to the end of the code.
pub open spec fn body_text<T: Text, E, R, P>(v: Vm<T, E, R, P>, i: int) -> Seq<char>
    decreases v.code_buffer@.len() - i,
{
    if 0 <= i < v.code_buffer@.len() {
        code_text(v, CodeAddress(Address::Entity(i as usize))) + "\n"@ + (
        if v.code_buffer@[i] == Instruction::<T, P>::DebugLabel(DebugLabel::WordTerminator) {
            Seq::empty()
        } else {
            body_text(v, i + 1)
        })
    } else {
        Seq::empty()
    }
}

/// What is written of the word `name`: its name, the word, and between
/// braces the lines of its body. A name without a word is written as
/// undefined, without a body.
pub open spec fn word_code_text<T: Text, E, R, P>(v: Vm<T, E, R, P>, name: Seq<char>) -> Seq<
    char,
> {
    let words = v.word_dictionary.committed();
    name + ": "@ + (if words.contains_key(name) {
        words[name].text() + "{\n"@ + (match words[name].code.0 {
            Address::Entity(a) => body_text(v, a as int),
            Address::Root => Seq::empty(),
        })
    } else {
        "#UNDEFINED#"@ + "{\n"@
    }) + "}\n"@
}

/// Whether `inst` ends a word.
fn is_terminator<T, P>(inst: &Instruction<T, P>) -> (r: bool)
    ensures
        r == (*inst == Instruction::<T, P>::DebugLabel(DebugLabel::WordTerminator)),
{
    match inst {
        Instruction::DebugLabel(DebugLabel::WordTerminator) => true,
        _ => false,
    }
}

/// Appends to `f` what is written of the word `name`.
pub fn dump_word_code<T: Text, E, R, P: Copy>(v: &Vm<T, E, R, P>, name: &String, f: &mut String)
    ensures
        final(f)@ == old(f)@ + word_code_text(*v, name@),
{
    f.append(name.as_str());
    f.append(": ");
    let start = match v.word_dictionary().find_word(name) {
        Ok(w) => {
            w.write_text(f);
            w.code()
        },
        Err(_) => {
            f.append("#UNDEFINED#");
            CodeAddress(Address::Root)
        },
    };
    f.append("{\n");
    let n: usize = match v.code_buffer().here().0 {
        Address::Entity(n) => n,
        Address::Root => 0,
    };
    let mut i: usize = match start.0 {
        Address::Entity(a) => a,
        Address::Root => n,
    };
    let ghost head = f@;
    let ghost whole = body_text(*v, i as int);
    let mut going = true;
    while going && i < n
        invariant
            n == v.code_buffer@.len(),
            going ==> f@ + body_text(*v, i as int) == head + whole,
            !going ==> f@ == head + whole,
        decreases
                (if going {
                    1 + n - i
                } else {
                    0
                }),
    {
        let adr = CodeAddress(Address::Entity(i));
        dump_code(v, adr, f);
        f.append("\n");
        match v.code_buffer().get(adr) {
            Ok(inst) => {
                if is_terminator(&inst) {
                    going = false;
                } else {
                    i = i + 1;
                }
            },
            Err(_) => {
                going = false;
            },
        }
    }
    assert(f@ =~= head + whole);
    f.append("}\n");
}

/// What is written of the words `names`, the first first.
pub open spec fn all_word_code_text<T: Text, E, R, P>(
    v: Vm<T, E, R, P>,
    names: Seq<Seq<char>>,
) -> Seq<char>
    decreases names.len(),
{
    if names.len() == 0 {
        Seq::empty()
    } else {
        all_word_code_text(v, names.drop_last()) + word_code_text(v, names.last())
    }
}

/// Whether `names` are the names of the completed words of `d`, those
/// with a body at a lower address first where each word has a name of its
/// own.
pub open spec fn names_in_order(d: Dictionary, names: Seq<Seq<char>>) -> bool {
    &&& names.len() == d.count()
    &&& forall|j: int| 0 <= j < names.len() ==> d.committed().contains_key(#[trigger] names[j])
    &&& forall|n: Seq<char>|
        d.committed().contains_key(n) ==> exists|j: int|
            0 <= j < names.len() && #[trigger] names[j] == n
    &&& d.names_are_distinct() ==> forall|a: int, b: int|
        0 <= a < b < names.len() ==> code_rank(d.committed()[#[trigger] names[a]].code)
            <= code_rank(d.committed()[#[trigger] names[b]].code)
}

/// Appends to `f` what is written of every completed word, in an order
/// in which a word with a body at a lower address comes first.
pub fn dump_all_word_code<T: Text, E, R, P: Copy>(v: &Vm<T, E, R, P>, f: &mut String)
    ensures
        exists|names: Seq<Seq<char>>|
            names_in_order(v.word_dictionary, names) && final(f)@ == old(f)@
                + #[trigger] all_word_code_text(*v, names),
{
    let list = v.word_dictionary().all_word_names();
    let ghost names = list@.map_values(|n: &String| n@);
    proof {
        assert forall|n: Seq<char>| v.word_dictionary.committed().contains_key(n) implies exists|
            j: int,
        |
            0 <= j < names.len() && #[trigger] names[j] == n by {
            let j = choose|j: int| 0 <= j < list@.len() && #[trigger] list@[j]@ == n;
            assert(names[j] == n);
        }
    }
    let mut i: usize = 0;
    while i < list.len()
        invariant
            i <= list@.len(),
            names == list@.map_values(|n: &String| n@),
            f@ == old(f)@ + all_word_code_text(*v, names.take(i as int)),
        decreases list@.len() - i,
    {
        dump_word_code(v, list[i], f);
        proof {
            let next = names.take(i + 1);
            assert(next.drop_last() =~= names.take(i as int));
        }
        i = i + 1;
    }
    assert(names.take(i as int) =~= names);
}

/// The lines of the cells of the environment that starts at `base`, from
/// the offset `pos` up to the offset `end` or to the end of the stack:
/// each line holds, between angle brackets, an offset and the cell.
pub open spec fn env_stack_text<T: Text, E, R, P>(
    v: Vm<T, E, R, P>,
    base: usize,
    end: usize,
    pos: int,
) -> Seq<char>
    decreases v.env_stack@.len() - (base + pos),
{
    if 0 <= pos && pos != end && base + pos < v.env_stack@.len() {
        "    <"@ + EnvironmentStackRelativeAddress(pos as usize).text() + ","@ + v.env_stack@[base
            + pos].text() + ">\n"@ + env_stack_text(v, base, end, pos + 1)
    } else {
        Seq::empty()
    }
}

/// Appends to `f` the lines of the cells of the environment that starts at
/// `base`, up to the offset `end_pos` or to the end of the stack.
pub fn dump_env_stack<T: Text, E, R, P>(
    v: &Vm<T, E, R, P>,
    base: EnvironmentStackAddress,
    end_pos: EnvironmentStackRelativeAddress,
    f: &mut String,
)
    ensures
        final(f)@ == old(f)@ + env_stack_text(*v, base.0, end_pos.0, 0),
{
    let mut pos = EnvironmentStackRelativeAddress(0);
    let mut going = true;
    while going
        invariant
            going ==> f@ + env_stack_text(*v, base.0, end_pos.0, pos.0 as int) == old(f)@
                + env_stack_text(*v, base.0, end_pos.0, 0),
            !going ==> f@ == old(f)@ + env_stack_text(*v, base.0, end_pos.0, 0),
        decreases
                (if going {
                    1 + if base.0 + pos.0 < v.env_stack@.len() {
                        v.env_stack@.len() - (base.0 + pos.0)
                    } else {
                        0
                    }
                } else {
                    0
                }),
    {
        if pos.0 == end_pos.0 {
            going = false;
        } else {
            match v.env_stack().get(base, pos) {
                Ok(value) => {
                    f.append("    <");
                    pos.write_text(f);
                    f.append(",");
                    value.write_text(f);
                    f.append(">\n");
                    v.env_stack().here();
                    pos = pos.next();
                },
                Err(_) => {
                    going = false;
                },
            }
        }
    }
}

/// Where the environment of the call `i` ends: where that of the next call
/// starts, or at the top of the environment stack for the last call.
pub open spec fn frame_end<T, E, R, P>(v: Vm<T, E, R, P>, i: int) -> usize {
    if i + 1 < v.return_stack@.len() {
        v.return_stack@[i + 1].stack_address.0
    } else {
        v.env_stack@.len() as usize
    }
}

/// How many cells the environment of the call `i` has. Where the next
/// environment starts below it, the count wraps around, and the cells up
/// to the top of the stack are written.
pub open spec fn frame_size<T, E, R, P>(v: Vm<T, E, R, P>, i: int) -> usize {
    let end = frame_end(v, i);
    let start = v.return_stack@[i].stack_address.0;
    if end >= start {
        (end - start) as usize
    } else {
        (end - start + usize::MAX + 1) as usize
    }
}

/// What is written of the call `i` on the return stack: the frame, the
/// line of the instruction that it returns to, and the cells of its
/// environment.
pub open spec fn frame_text<T: Text, E, R, P>(v: Vm<T, E, R, P>, i: int) -> Seq<char> {
    let frame = v.return_stack@[i];
    "  "@ + frame.text() + ": "@ + code_text(v, frame.return_address) + "\n"@ + env_stack_text(
        v,
        frame.stack_address.0,
        frame_size(v, i),
        0,
    )
}

/// What is written of the first `n` calls on the return stack.
pub open spec fn frames_text<T: Text, E, R, P>(v: Vm<T, E, R, P>, n: int) -> Seq<char>
    decreases n,
{
    if n <= 0 {
        Seq::empty()
    } else {
        frames_text(v, n - 1) + frame_text(v, n - 1)
    }
}

/// What is written of the return stack and the environments.
pub open spec fn env_text<T: Text, E, R, P>(v: Vm<T, E, R, P>) -> Seq<char> {
    "ReturnStack[\n"@ + frames_text(v, v.return_stack@.len() as int) + "]<-StackTop\n"@
}

/// Appends to `f` what is written of the call `i` on the return stack.
fn dump_frame<T: Text, E, R, P: Copy>(v: &Vm<T, E, R, P>, i: usize, f: &mut String)
    requires
        i < v.return_stack@.len(),
    ensures
        final(f)@ == old(f)@ + frame_text(*v, i as int),
{
    let rs = v.return_stack();
    let n: usize = rs.here().0;
    let current = match rs.get(ReturnStackAddress(i)) {
        Ok(frame) => frame,
        Err(_) => CallFrame::default(),
    };
    let next_adr: usize = if i + 1 < n {
        match rs.get(ReturnStackAddress(i + 1)) {
            Ok(next_call_frame) => next_call_frame.stack_address().0,
            Err(_) => v.env_stack().here().0,
        }
    } else {
        v.env_stack().here().0
    };
    let size: usize = next_adr.wrapping_sub(current.stack_address().0);
    f.append("  ");
    current.write_text(f);
    f.append(": ");
    dump_code(v, current.return_address(), f);
    f.append("\n");
    dump_env_stack(v, current.stack_address(), EnvironmentStackRelativeAddress(size), f);
}

/// Appends to `f` what is written of the return stack and the
/// environments.
pub fn dump_env<T: Text, E, R, P: Copy>(v: &Vm<T, E, R, P>, f: &mut String)
    ensures
        final(f)@ == old(f)@ + env_text(*v),
{
    f.append("ReturnStack[\n");
    let n: usize = v.return_stack().here().0;
    let ghost head = f@;
    let mut i: usize = 0;
    while i < n
        invariant
            n == v.return_stack@.len(),
            i <= n,
            f@ == head + frames_text(*v, i as int),
        decreases n - i,
    {
        dump_frame(v, i, f);
        i = i + 1;
    }
    f.append("]<-StackTop\n");
}

/// Appends to `f` what is written of the data stack.
pub fn dump_data_stack<T: Text, E, R, P>(v: &Vm<T, E, R, P>, f: &mut String)
    ensures
        final(f)@ == old(f)@ + v.data_stack.text(),
{
    v.data_stack().write_text(f);
}

/// Appends to `f` what is written of the control-flow stack.
pub fn dump_controlflow_stack<T: Text, E, R, P>(v: &Vm<T, E, R, P>, f: &mut String)
    ensures
        final(f)@ == old(f)@ + v.controlflow_stack.text(),
{
    v.controlflow_stack().write_text(f);
}

/// What is written first of a machine, under a heading each: the state,
/// and the words in the order `names`.
pub open spec fn state_and_words_text<T: Text, E, R, P>(
    v: Vm<T, E, R, P>,
    names: Seq<Seq<char>>,
) -> Seq<char> {
    "##### Vm State #########################################\n"@ + vm_state_text(v)
        + "##### Word Definition ##################################\n"@ + all_word_code_text(
        v,
        names,
    )
}

/// What is written last of a machine, under a heading each: the
/// control-flow stack, the return stack with the environments, and the
/// data stack; and a line that ends it all.
pub open spec fn stacks_text<T: Text, E, R, P>(v: Vm<T, E, R, P>) -> Seq<char> {
    "##### Controlflow Stack ################################\n"@ + v.controlflow_stack.text()
        + "##### Return Stack Environment #########################\n"@ + env_text(v)
        + "##### Data Stack #######################################\n"@ + v.data_stack.text()
        + "########################################################\n"@
}

/// Everything that is written of a machine: the state and the words in
/// the order `names`, and then the stacks.
pub open spec fn all_info_text<T: Text, E, R, P>(v: Vm<T, E, R, P>, names: Seq<Seq<char>>) -> Seq<
    char,
> {
    state_and_words_text(v, names) + stacks_text(v)
}

/// Appends to `f` what is written last of a machine.
fn dump_stacks<T: Text, E, R, P: Copy>(v: &Vm<T, E, R, P>, f: &mut String)
    ensures
        final(f)@ == old(f)@ + stacks_text(*v),
{
    f.append("##### Controlflow Stack ################################\n");
    dump_controlflow_stack(v, f);
    f.append("##### Return Stack Environment #########################\n");
    dump_env(v, f);
    f.append("##### Data Stack #######################################\n");
    dump_data_stack(v, f);
    f.append("########################################################\n");
}

/// Appends to `f` what is written first of a machine, the words in an
/// order in which a word with a body at a lower address comes first.
fn dump_state_and_words<T: Text, E, R, P: Copy>(v: &Vm<T, E, R, P>, f: &mut String)
    ensures
        exists|names: Seq<Seq<char>>|
            names_in_order(v.word_dictionary, names) && final(f)@ == old(f)@
                + #[trigger] state_and_words_text(*v, names),
{
    f.append("##### Vm State #########################################\n");
    dump_vm_sate(v, f);
    f.append("##### Word Definition ##################################\n");
    let ghost before = f@;
    dump_all_word_code(v, f);
    let ghost names = choose|names: Seq<Seq<char>>|
        names_in_order(v.word_dictionary, names) && f@ == before + #[trigger] all_word_code_text(
            *v,
            names,
        );
    assert(f@ =~= old(f)@ + state_and_words_text(*v, names));
}

/// Appends to `f` everything that is written of a machine, the words in
/// an order in which a word with a body at a lower address comes first.
pub fn dump_all_info<T: Text, E, R, P: Copy>(v: &Vm<T, E, R, P>, f: &mut String)
    ensures
        exists|names: Seq<Seq<char>>|
            names_in_order(v.word_dictionary, names) && final(f)@ == old(f)@
                + #[trigger] all_info_text(*v, names),
{
    dump_state_and_words(v, f);
    let ghost names = choose|names: Seq<Seq<char>>|
        names_in_order(v.word_dictionary, names) && f@ == old(f)@
            + #[trigger] state_and_words_text(*v, names);
    let ghost first = state_and_words_text(*v, names);
    let ghost last = stacks_text(*v);
    dump_stacks(v, f);
    assert(all_info_text(*v, names) == first + last);
}

} // verus!
