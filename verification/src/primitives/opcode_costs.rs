//! Cost tables of the Wasm opcodes.

use vstd::prelude::*;

use super::{
    DEFAULT_BIT_COST, DEFAULT_CONST_COST, DEFAULT_CONTROL_FLOW_BLOCK_OPCODE,
    DEFAULT_CONTROL_FLOW_BR_IF_OPCODE, DEFAULT_CONTROL_FLOW_BR_OPCODE,
    DEFAULT_CONTROL_FLOW_BR_TABLE_MULTIPLIER, DEFAULT_CONTROL_FLOW_BR_TABLE_OPCODE,
    DEFAULT_CONTROL_FLOW_CALL_INDIRECT_OPCODE, DEFAULT_CONTROL_FLOW_CALL_OPCODE,
    DEFAULT_CONTROL_FLOW_DROP_OPCODE, DEFAULT_CONTROL_FLOW_ELSE_OPCODE,
    DEFAULT_CONTROL_FLOW_END_OPCODE, DEFAULT_CONTROL_FLOW_IF_OPCODE,
    DEFAULT_CONTROL_FLOW_LOOP_OPCODE, DEFAULT_CONTROL_FLOW_RETURN_OPCODE,
    DEFAULT_CONTROL_FLOW_SELECT_OPCODE, DEFAULT_CONVERSION_COST, DEFAULT_CURRENT_MEMORY_COST,
    DEFAULT_DIV_COST, DEFAULT_GLOBAL_COST, DEFAULT_GROW_MEMORY_COST,
    DEFAULT_INTEGER_COMPARISON_COST, DEFAULT_LOAD_COST, DEFAULT_LOCAL_COST, DEFAULT_MUL_COST,
    DEFAULT_NOP_COST, DEFAULT_STORE_COST, DEFAULT_UNREACHABLE_COST, DEFAULT_WASM_ADD_COST,
};
use crate::bytesrepr::{
    append_word, encoding, from_le_bytes, le_bytes, lemma_concat_subrange, lemma_encode_words_concat, lemma_encode_words_empty, lemma_encode_words_index, lemma_encode_words_subrange, lemma_encoding_len, lemma_encoding_of_parse, lemma_le_bytes_of, lemma_parsed_complete, lemma_parsed_short, lemma_read_step, lemma_subrange_all, lemma_subrange_join, lemma_subrange_of_prefix, parsed_as, read_word, u32_serialized_length, Error, WordLayout,
};

verus! {

/// Definition of a cost table for a Wasm `br_table` opcode.
///
/// Charge of a `br_table` opcode is calculated as follows:
///
/// ```text
/// cost + (len(br_table.targets) * size_multiplier)
/// ```
#[derive(Clone, Copy, Debug, PartialEq, Eq, Structural)]
pub struct BrTableCost {
    /// Fixed cost charge for `br_table` opcode.
    pub cost: u32,
    /// Multiplier for size of target labels in the `br_table` opcode.
    pub size_multiplier: u32,
}

impl BrTableCost {
    /// The default `br_table` cost table.
    pub open spec fn spec_default() -> BrTableCost {
        BrTableCost {
            cost: DEFAULT_CONTROL_FLOW_BR_TABLE_OPCODE,
            size_multiplier: DEFAULT_CONTROL_FLOW_BR_TABLE_MULTIPLIER,
        }
    }

    /// Serializes the value in the `bytesrepr` format: its words in order,
    /// each as four little-endian bytes.
    pub fn to_bytes(&self) -> (r: Result<Vec<u8>, Error>)
        ensures
            r is Ok,
            r->Ok_0@ == encoding(*self),
    {
        let mut ret = Vec::with_capacity(self.serialized_length());
        let ghost mut ws = Seq::<u32>::empty();
        proof { lemma_encode_words_empty(); }
        append_word(&mut ret, self.cost, Ghost(ws));
        proof { ws = ws.push(self.cost); }
        append_word(&mut ret, self.size_multiplier, Ghost(ws));
        proof { ws = ws.push(self.size_multiplier); }
        Ok(ret)
    }

    /// The length of the serialized value in bytes.
    pub fn serialized_length(&self) -> (r: usize)
        ensures
            r == encoding(*self).len(),
            r == 8,
    {
        proof {
            lemma_encoding_len(*self);

        }
        u32_serialized_length(&self.cost)
            + u32_serialized_length(&self.size_multiplier)
    }

    /// Deserializes a value from the front of `bytes`, handing back the rest.
    pub fn from_bytes(bytes: &[u8]) -> (r: Result<(BrTableCost, &[u8]), Error>)
        ensures
            parsed_as::<BrTableCost>(bytes@, r),
    {
        let ghost whole = bytes@;
        let ghost mut ws = Seq::<u32>::empty();
        proof {
            lemma_encode_words_empty();
            assert(whole.take(0) =~= Seq::<u8>::empty());
            assert(whole.skip(0) =~= whole);
        }
        let rem = bytes;
        let (cost, rem) = match read_word(rem, Ghost(whole), Ghost(ws)) {
            Ok(pair) => pair,
            Err(e) => {
                proof { lemma_parsed_short::<BrTableCost>(whole, Err(e)); }
                return Err(e);
            },
        };
        proof { ws = ws.push(cost); }
        let (size_multiplier, rem) = match read_word(rem, Ghost(whole), Ghost(ws)) {
            Ok(pair) => pair,
            Err(e) => {
                proof { lemma_parsed_short::<BrTableCost>(whole, Err(e)); }
                return Err(e);
            },
        };
        proof { ws = ws.push(size_multiplier); }
        let value = BrTableCost { cost, size_multiplier };
        proof { lemma_parsed_complete(whole, value, rem); }
        Ok((value, rem))
    }
}

impl Default for BrTableCost {
    fn default() -> (r: Self)
        ensures
            r == BrTableCost::spec_default(),
    {
        Self {
            cost: DEFAULT_CONTROL_FLOW_BR_TABLE_OPCODE,
            size_multiplier: DEFAULT_CONTROL_FLOW_BR_TABLE_MULTIPLIER,
        }
    }
}

impl WordLayout for BrTableCost {
    open spec fn words(&self) -> Seq<u32> {
        Seq::<u32>::empty().push(self.cost).push(self.size_multiplier)
    }

    open spec fn from_words(ws: Seq<u32>) -> Self {
        BrTableCost {
            cost: ws[0],
            size_multiplier: ws[1],
        }
    }

    open spec fn word_count() -> nat {
        2
    }

    proof fn lemma_words(&self) {

    }

    proof fn lemma_from_words(ws: Seq<u32>) {
        assert(Self::from_words(ws).words() =~= ws);
    }
}

/// Definition of a cost table for a Wasm control flow opcodes.
#[derive(Clone, Copy, Debug, PartialEq, Eq, Structural)]
pub struct ControlFlowCosts {
    /// Cost for `block` opcode.
    pub block: u32,
    /// Cost for `loop` opcode.
    pub op_loop: u32,
    /// Cost for `if` opcode.
    pub op_if: u32,
    /// Cost for `else` opcode.
    pub op_else: u32,
    /// Cost for `end` opcode.
    pub end: u32,
    /// Cost for `br` opcode.
    pub br: u32,
    /// Cost for `br_if` opcode.
    pub br_if: u32,
    /// Cost for `return` opcode.
    pub op_return: u32,
    /// Cost for `call` opcode.
    pub call: u32,
    /// Cost for `call_indirect` opcode.
    pub call_indirect: u32,
    /// Cost for `drop` opcode.
    pub drop: u32,
    /// Cost for `select` opcode.
    pub select: u32,
    /// Cost for `br_table` opcode.
    pub br_table: BrTableCost,
}

impl ControlFlowCosts {
    /// The default control flow cost table.
    pub open spec fn spec_default() -> ControlFlowCosts {
        ControlFlowCosts {
            block: DEFAULT_CONTROL_FLOW_BLOCK_OPCODE,
            op_loop: DEFAULT_CONTROL_FLOW_LOOP_OPCODE,
            op_if: DEFAULT_CONTROL_FLOW_IF_OPCODE,
            op_else: DEFAULT_CONTROL_FLOW_ELSE_OPCODE,
            end: DEFAULT_CONTROL_FLOW_END_OPCODE,
            br: DEFAULT_CONTROL_FLOW_BR_OPCODE,
            br_if: DEFAULT_CONTROL_FLOW_BR_IF_OPCODE,
            op_return: DEFAULT_CONTROL_FLOW_RETURN_OPCODE,
            call: DEFAULT_CONTROL_FLOW_CALL_OPCODE,
            call_indirect: DEFAULT_CONTROL_FLOW_CALL_INDIRECT_OPCODE,
            drop: DEFAULT_CONTROL_FLOW_DROP_OPCODE,
            select: DEFAULT_CONTROL_FLOW_SELECT_OPCODE,
            br_table: BrTableCost::spec_default(),
        }
    }

    /// Serializes the value in the `bytesrepr` format: its words in order,
    /// each as four little-endian bytes.
    pub fn to_bytes(&self) -> (r: Result<Vec<u8>, Error>)
        ensures
            r is Ok,
            r->Ok_0@ == encoding(*self),
    {
        let mut ret = Vec::with_capacity(self.serialized_length());
        let ghost mut ws = Seq::<u32>::empty();
        proof { lemma_encode_words_empty(); }
        append_word(&mut ret, self.block, Ghost(ws));
        proof { ws = ws.push(self.block); }
        append_word(&mut ret, self.op_loop, Ghost(ws));
        proof { ws = ws.push(self.op_loop); }
        append_word(&mut ret, self.op_if, Ghost(ws));
        proof { ws = ws.push(self.op_if); }
        append_word(&mut ret, self.op_else, Ghost(ws));
        proof { ws = ws.push(self.op_else); }
        append_word(&mut ret, self.end, Ghost(ws));
        proof { ws = ws.push(self.end); }
        append_word(&mut ret, self.br, Ghost(ws));
        proof { ws = ws.push(self.br); }
        append_word(&mut ret, self.br_if, Ghost(ws));
        proof { ws = ws.push(self.br_if); }
        append_word(&mut ret, self.op_return, Ghost(ws));
        proof { ws = ws.push(self.op_return); }
        append_word(&mut ret, self.call, Ghost(ws));
        proof { ws = ws.push(self.call); }
        append_word(&mut ret, self.call_indirect, Ghost(ws));
        proof { ws = ws.push(self.call_indirect); }
        append_word(&mut ret, self.drop, Ghost(ws));
        proof { ws = ws.push(self.drop); }
        append_word(&mut ret, self.select, Ghost(ws));
        proof { ws = ws.push(self.select); }
        let mut br_table_bytes = match self.br_table.to_bytes() {
            Ok(bytes) => bytes,
            Err(e) => return Err(e),
        };
        proof { lemma_encode_words_concat(ws, self.br_table.words()); }
        ret.append(&mut br_table_bytes);
        proof { ws = ws + self.br_table.words(); }
        Ok(ret)
    }

    /// The length of the serialized value in bytes.
    pub fn serialized_length(&self) -> (r: usize)
        ensures
            r == encoding(*self).len(),
            r == 56,
    {
        proof {
            lemma_encoding_len(*self);
            lemma_encoding_len(self.br_table);
        }
        u32_serialized_length(&self.block)
            + u32_serialized_length(&self.op_loop)
            + u32_serialized_length(&self.op_if)
            + u32_serialized_length(&self.op_else)
            + u32_serialized_length(&self.end)
            + u32_serialized_length(&self.br)
            + u32_serialized_length(&self.br_if)
            + u32_serialized_length(&self.op_return)
            + u32_serialized_length(&self.call)
            + u32_serialized_length(&self.call_indirect)
            + u32_serialized_length(&self.drop)
            + u32_serialized_length(&self.select)
            + self.br_table.serialized_length()
    }

    /// Deserializes a value from the front of `bytes`, handing back the rest.
    pub fn from_bytes(bytes: &[u8]) -> (r: Result<(ControlFlowCosts, &[u8]), Error>)
        ensures
            parsed_as::<ControlFlowCosts>(bytes@, r),
    {
        let ghost whole = bytes@;
        let ghost mut ws = Seq::<u32>::empty();
        proof {
            lemma_encode_words_empty();
            assert(whole.take(0) =~= Seq::<u8>::empty());
            assert(whole.skip(0) =~= whole);
        }
        let rem = bytes;
        let (block, rem) = match read_word(rem, Ghost(whole), Ghost(ws)) {
            Ok(pair) => pair,
            Err(e) => {
                proof { lemma_parsed_short::<ControlFlowCosts>(whole, Err(e)); }
                return Err(e);
            },
        };
        proof { ws = ws.push(block); }
        let (op_loop, rem) = match read_word(rem, Ghost(whole), Ghost(ws)) {
            Ok(pair) => pair,
            Err(e) => {
                proof { lemma_parsed_short::<ControlFlowCosts>(whole, Err(e)); }
                return Err(e);
            },
        };
        proof { ws = ws.push(op_loop); }
        let (op_if, rem) = match read_word(rem, Ghost(whole), Ghost(ws)) {
            Ok(pair) => pair,
            Err(e) => {
                proof { lemma_parsed_short::<ControlFlowCosts>(whole, Err(e)); }
                return Err(e);
            },
        };
        proof { ws = ws.push(op_if); }
        let (op_else, rem) = match read_word(rem, Ghost(whole), Ghost(ws)) {
            Ok(pair) => pair,
            Err(e) => {
                proof { lemma_parsed_short::<ControlFlowCosts>(whole, Err(e)); }
                return Err(e);
            },
        };
        proof { ws = ws.push(op_else); }
        let (end, rem) = match read_word(rem, Ghost(whole), Ghost(ws)) {
            Ok(pair) => pair,
            Err(e) => {
                proof { lemma_parsed_short::<ControlFlowCosts>(whole, Err(e)); }
                return Err(e);
            },
        };
        proof { ws = ws.push(end); }
        let (br, rem) = match read_word(rem, Ghost(whole), Ghost(ws)) {
            Ok(pair) => pair,
            Err(e) => {
                proof { lemma_parsed_short::<ControlFlowCosts>(whole, Err(e)); }
                return Err(e);
            },
        };
        proof { ws = ws.push(br); }
        let (br_if, rem) = match read_word(rem, Ghost(whole), Ghost(ws)) {
            Ok(pair) => pair,
            Err(e) => {
                proof { lemma_parsed_short::<ControlFlowCosts>(whole, Err(e)); }
                return Err(e);
            },
        };
        proof { ws = ws.push(br_if); }
        let (op_return, rem) = match read_word(rem, Ghost(whole), Ghost(ws)) {
            Ok(pair) => pair,
            Err(e) => {
                proof { lemma_parsed_short::<ControlFlowCosts>(whole, Err(e)); }
                return Err(e);
            },
        };
        proof { ws = ws.push(op_return); }
        let (call, rem) = match read_word(rem, Ghost(whole), Ghost(ws)) {
            Ok(pair) => pair,
            Err(e) => {
                proof { lemma_parsed_short::<ControlFlowCosts>(whole, Err(e)); }
                return Err(e);
            },
        };
        proof { ws = ws.push(call); }
        let (call_indirect, rem) = match read_word(rem, Ghost(whole), Ghost(ws)) {
            Ok(pair) => pair,
            Err(e) => {
                proof { lemma_parsed_short::<ControlFlowCosts>(whole, Err(e)); }
                return Err(e);
            },
        };
        proof { ws = ws.push(call_indirect); }
        let (drop, rem) = match read_word(rem, Ghost(whole), Ghost(ws)) {
            Ok(pair) => pair,
            Err(e) => {
                proof { lemma_parsed_short::<ControlFlowCosts>(whole, Err(e)); }
                return Err(e);
            },
        };
        proof { ws = ws.push(drop); }
        let (select, rem) = match read_word(rem, Ghost(whole), Ghost(ws)) {
            Ok(pair) => pair,
            Err(e) => {
                proof { lemma_parsed_short::<ControlFlowCosts>(whole, Err(e)); }
                return Err(e);
            },
        };
        proof { ws = ws.push(select); }
        let read = BrTableCost::from_bytes(rem);
        proof { lemma_read_step::<BrTableCost>(whole, ws, rem@, read); }
        let (br_table, rem) = match read {
            Ok(pair) => pair,
            Err(e) => {
                proof { lemma_parsed_short::<ControlFlowCosts>(whole, Err(e)); }
                return Err(e);
            },
        };
        proof {
            ws = ws + br_table.words();
            assert(ws.len() == 14);
        }
        let value = ControlFlowCosts { block, op_loop, op_if, op_else, end, br, br_if, op_return, call, call_indirect, drop, select, br_table };
        proof { lemma_parsed_complete(whole, value, rem); }
        Ok((value, rem))
    }
}

impl Default for ControlFlowCosts {
    fn default() -> (r: Self)
        ensures
            r == ControlFlowCosts::spec_default(),
    {
        Self {
            block: DEFAULT_CONTROL_FLOW_BLOCK_OPCODE,
            op_loop: DEFAULT_CONTROL_FLOW_LOOP_OPCODE,
            op_if: DEFAULT_CONTROL_FLOW_IF_OPCODE,
            op_else: DEFAULT_CONTROL_FLOW_ELSE_OPCODE,
            end: DEFAULT_CONTROL_FLOW_END_OPCODE,
            br: DEFAULT_CONTROL_FLOW_BR_OPCODE,
            br_if: DEFAULT_CONTROL_FLOW_BR_IF_OPCODE,
            op_return: DEFAULT_CONTROL_FLOW_RETURN_OPCODE,
            call: DEFAULT_CONTROL_FLOW_CALL_OPCODE,
            call_indirect: DEFAULT_CONTROL_FLOW_CALL_INDIRECT_OPCODE,
            drop: DEFAULT_CONTROL_FLOW_DROP_OPCODE,
            select: DEFAULT_CONTROL_FLOW_SELECT_OPCODE,
            br_table: BrTableCost::default(),
        }
    }
}

impl WordLayout for ControlFlowCosts {
    open spec fn words(&self) -> Seq<u32> {
        Seq::<u32>::empty()
            .push(self.block)
            .push(self.op_loop)
            .push(self.op_if)
            .push(self.op_else)
            .push(self.end)
            .push(self.br)
            .push(self.br_if)
            .push(self.op_return)
            .push(self.call)
            .push(self.call_indirect)
            .push(self.drop)
            .push(self.select)
            + self.br_table.words()
    }

    open spec fn from_words(ws: Seq<u32>) -> Self {
        ControlFlowCosts {
            block: ws[0],
            op_loop: ws[1],
            op_if: ws[2],
            op_else: ws[3],
            end: ws[4],
            br: ws[5],
            br_if: ws[6],
            op_return: ws[7],
            call: ws[8],
            call_indirect: ws[9],
            drop: ws[10],
            select: ws[11],
            br_table: BrTableCost::from_words(ws.subrange(12, 14)),
        }
    }

    open spec fn word_count() -> nat {
        14
    }

    proof fn lemma_words(&self) {
        self.br_table.lemma_words();
        let s = self.words();
        lemma_subrange_all(s);
        let scalars = Seq::<u32>::empty()
            .push(self.block)
            .push(self.op_loop)
            .push(self.op_if)
            .push(self.op_else)
            .push(self.end)
            .push(self.br)
            .push(self.br_if)
            .push(self.op_return)
            .push(self.call)
            .push(self.call_indirect)
            .push(self.drop)
            .push(self.select);
        lemma_concat_subrange(scalars, self.br_table.words());
        lemma_subrange_of_prefix(s, 12, 14, 14);
        lemma_subrange_of_prefix(s, 0, 12, 14);
    }

    proof fn lemma_from_words(ws: Seq<u32>) {
        BrTableCost::lemma_from_words(ws.subrange(12, 14));
        assert(Self::from_words(ws).words().subrange(0, 12) =~= ws.subrange(0, 12));
        lemma_subrange_join(ws, 0, 12, 14);
        lemma_subrange_all(ws);
        assert(Self::from_words(ws).words() =~= ws);
    }
}

/// Definition of a cost table for Wasm opcodes.
///
/// This is taken (partially) from parity-ethereum.
#[derive(Clone, Copy, Debug, PartialEq, Eq, Structural)]
pub struct OpcodeCosts {
    /// Bit operations multiplier.
    pub bit: u32,
    /// Arithmetic add operations multiplier.
    pub add: u32,
    /// Mul operations multiplier.
    pub mul: u32,
    /// Div operations multiplier.
    pub div: u32,
    /// Memory load operation multiplier.
    pub load: u32,
    /// Memory store operation multiplier.
    pub store: u32,
    /// Const operation multiplier.
    pub op_const: u32,
    /// Local operations multiplier.
    pub local: u32,
    /// Global operations multiplier.
    pub global: u32,
    /// Integer operations multiplier.
    pub integer_comparison: u32,
    /// Conversion operations multiplier.
    pub conversion: u32,
    /// Unreachable operation multiplier.
    pub unreachable: u32,
    /// Nop operation multiplier.
    pub nop: u32,
    /// Get current memory operation multiplier.
    pub current_memory: u32,
    /// Grow memory cost, per page (64kb)
    pub grow_memory: u32,
    /// Control flow operations multiplier.
    pub control_flow: ControlFlowCosts,
}

impl OpcodeCosts {
    /// The default opcode cost table.
    pub open spec fn spec_default() -> OpcodeCosts {
        OpcodeCosts {
            bit: DEFAULT_BIT_COST,
            add: DEFAULT_WASM_ADD_COST,
            mul: DEFAULT_MUL_COST,
            div: DEFAULT_DIV_COST,
            load: DEFAULT_LOAD_COST,
            store: DEFAULT_STORE_COST,
            op_const: DEFAULT_CONST_COST,
            local: DEFAULT_LOCAL_COST,
            global: DEFAULT_GLOBAL_COST,
            integer_comparison: DEFAULT_INTEGER_COMPARISON_COST,
            conversion: DEFAULT_CONVERSION_COST,
            unreachable: DEFAULT_UNREACHABLE_COST,
            nop: DEFAULT_NOP_COST,
            current_memory: DEFAULT_CURRENT_MEMORY_COST,
            grow_memory: DEFAULT_GROW_MEMORY_COST,
            control_flow: ControlFlowCosts::spec_default(),
        }
    }

    /// Serializes the value in the `bytesrepr` format: its words in order,
    /// each as four little-endian bytes.
    pub fn to_bytes(&self) -> (r: Result<Vec<u8>, Error>)
        ensures
            r is Ok,
            r->Ok_0@ == encoding(*self),
    {
        let mut ret = Vec::with_capacity(self.serialized_length());
        let ghost mut ws = Seq::<u32>::empty();
        proof { lemma_encode_words_empty(); }
        append_word(&mut ret, self.bit, Ghost(ws));
        proof { ws = ws.push(self.bit); }
        append_word(&mut ret, self.add, Ghost(ws));
        proof { ws = ws.push(self.add); }
        append_word(&mut ret, self.mul, Ghost(ws));
        proof { ws = ws.push(self.mul); }
        append_word(&mut ret, self.div, Ghost(ws));
        proof { ws = ws.push(self.div); }
        append_word(&mut ret, self.load, Ghost(ws));
        proof { ws = ws.push(self.load); }
        append_word(&mut ret, self.store, Ghost(ws));
        proof { ws = ws.push(self.store); }
        append_word(&mut ret, self.op_const, Ghost(ws));
        proof { ws = ws.push(self.op_const); }
        append_word(&mut ret, self.local, Ghost(ws));
        proof { ws = ws.push(self.local); }
        append_word(&mut ret, self.global, Ghost(ws));
        proof { ws = ws.push(self.global); }
        append_word(&mut ret, self.integer_comparison, Ghost(ws));
        proof { ws = ws.push(self.integer_comparison); }
        append_word(&mut ret, self.conversion, Ghost(ws));
        proof { ws = ws.push(self.conversion); }
        append_word(&mut ret, self.unreachable, Ghost(ws));
        proof { ws = ws.push(self.unreachable); }
        append_word(&mut ret, self.nop, Ghost(ws));
        proof { ws = ws.push(self.nop); }
        append_word(&mut ret, self.current_memory, Ghost(ws));
        proof { ws = ws.push(self.current_memory); }
        append_word(&mut ret, self.grow_memory, Ghost(ws));
        proof { ws = ws.push(self.grow_memory); }
        let mut control_flow_bytes = match self.control_flow.to_bytes() {
            Ok(bytes) => bytes,
            Err(e) => return Err(e),
        };
        proof { lemma_encode_words_concat(ws, self.control_flow.words()); }
        ret.append(&mut control_flow_bytes);
        proof { ws = ws + self.control_flow.words(); }
        Ok(ret)
    }

    /// The length of the serialized value in bytes.
    pub fn serialized_length(&self) -> (r: usize)
        ensures
            r == encoding(*self).len(),
            r == 116,
    {
        proof {
            lemma_encoding_len(*self);
            lemma_encoding_len(self.control_flow);
        }
        u32_serialized_length(&self.bit)
            + u32_serialized_length(&self.add)
            + u32_serialized_length(&self.mul)
            + u32_serialized_length(&self.div)
            + u32_serialized_length(&self.load)
            + u32_serialized_length(&self.store)
            + u32_serialized_length(&self.op_const)
            + u32_serialized_length(&self.local)
            + u32_serialized_length(&self.global)
            + u32_serialized_length(&self.integer_comparison)
            + u32_serialized_length(&self.conversion)
            + u32_serialized_length(&self.unreachable)
            + u32_serialized_length(&self.nop)
            + u32_serialized_length(&self.current_memory)
            + u32_serialized_length(&self.grow_memory)
            + self.control_flow.serialized_length()
    }

    /// Deserializes a value from the front of `bytes`, handing back the rest.
    pub fn from_bytes(bytes: &[u8]) -> (r: Result<(OpcodeCosts, &[u8]), Error>)
        ensures
            parsed_as::<OpcodeCosts>(bytes@, r),
    {
        let ghost whole = bytes@;
        let ghost mut ws = Seq::<u32>::empty();
        proof {
            lemma_encode_words_empty();
            assert(whole.take(0) =~= Seq::<u8>::empty());
            assert(whole.skip(0) =~= whole);
        }
        let rem = bytes;
        let (bit, rem) = match read_word(rem, Ghost(whole), Ghost(ws)) {
            Ok(pair) => pair,
            Err(e) => {
                proof { lemma_parsed_short::<OpcodeCosts>(whole, Err(e)); }
                return Err(e);
            },
        };
        proof { ws = ws.push(bit); }
        let (add, rem) = match read_word(rem, Ghost(whole), Ghost(ws)) {
            Ok(pair) => pair,
            Err(e) => {
                proof { lemma_parsed_short::<OpcodeCosts>(whole, Err(e)); }
                return Err(e);
            },
        };
        proof { ws = ws.push(add); }
        let (mul, rem) = match read_word(rem, Ghost(whole), Ghost(ws)) {
            Ok(pair) => pair,
            Err(e) => {
                proof { lemma_parsed_short::<OpcodeCosts>(whole, Err(e)); }
                return Err(e);
            },
        };
        proof { ws = ws.push(mul); }
        let (div, rem) = match read_word(rem, Ghost(whole), Ghost(ws)) {
            Ok(pair) => pair,
            Err(e) => {
                proof { lemma_parsed_short::<OpcodeCosts>(whole, Err(e)); }
                return Err(e);
            },
        };
        proof { ws = ws.push(div); }
        let (load, rem) = match read_word(rem, Ghost(whole), Ghost(ws)) {
            Ok(pair) => pair,
            Err(e) => {
                proof { lemma_parsed_short::<OpcodeCosts>(whole, Err(e)); }
                return Err(e);
            },
        };
        proof { ws = ws.push(load); }
        let (store, rem) = match read_word(rem, Ghost(whole), Ghost(ws)) {
            Ok(pair) => pair,
            Err(e) => {
                proof { lemma_parsed_short::<OpcodeCosts>(whole, Err(e)); }
                return Err(e);
            },
        };
        proof { ws = ws.push(store); }
        let (op_const, rem) = match read_word(rem, Ghost(whole), Ghost(ws)) {
            Ok(pair) => pair,
            Err(e) => {
                proof { lemma_parsed_short::<OpcodeCosts>(whole, Err(e)); }
                return Err(e);
            },
        };
        proof { ws = ws.push(op_const); }
        let (local, rem) = match read_word(rem, Ghost(whole), Ghost(ws)) {
            Ok(pair) => pair,
            Err(e) => {
                proof { lemma_parsed_short::<OpcodeCosts>(whole, Err(e)); }
                return Err(e);
            },
        };
        proof { ws = ws.push(local); }
        let (global, rem) = match read_word(rem, Ghost(whole), Ghost(ws)) {
            Ok(pair) => pair,
            Err(e) => {
                proof { lemma_parsed_short::<OpcodeCosts>(whole, Err(e)); }
                return Err(e);
            },
        };
        proof { ws = ws.push(global); }
        let (integer_comparison, rem) = match read_word(rem, Ghost(whole), Ghost(ws)) {
            Ok(pair) => pair,
            Err(e) => {
                proof { lemma_parsed_short::<OpcodeCosts>(whole, Err(e)); }
                return Err(e);
            },
        };
        proof { ws = ws.push(integer_comparison); }
        let (conversion, rem) = match read_word(rem, Ghost(whole), Ghost(ws)) {
            Ok(pair) => pair,
            Err(e) => {
                proof { lemma_parsed_short::<OpcodeCosts>(whole, Err(e)); }
                return Err(e);
            },
        };
        proof { ws = ws.push(conversion); }
        let (unreachable, rem) = match read_word(rem, Ghost(whole), Ghost(ws)) {
            Ok(pair) => pair,
            Err(e) => {
                proof { lemma_parsed_short::<OpcodeCosts>(whole, Err(e)); }
                return Err(e);
            },
        };
        proof { ws = ws.push(unreachable); }
        let (nop, rem) = match read_word(rem, Ghost(whole), Ghost(ws)) {
            Ok(pair) => pair,
            Err(e) => {
                proof { lemma_parsed_short::<OpcodeCosts>(whole, Err(e)); }
                return Err(e);
            },
        };
        proof { ws = ws.push(nop); }
        let (current_memory, rem) = match read_word(rem, Ghost(whole), Ghost(ws)) {
            Ok(pair) => pair,
            Err(e) => {
                proof { lemma_parsed_short::<OpcodeCosts>(whole, Err(e)); }
                return Err(e);
            },
        };
        proof { ws = ws.push(current_memory); }
        let (grow_memory, rem) = match read_word(rem, Ghost(whole), Ghost(ws)) {
            Ok(pair) => pair,
            Err(e) => {
                proof { lemma_parsed_short::<OpcodeCosts>(whole, Err(e)); }
                return Err(e);
            },
        };
        proof { ws = ws.push(grow_memory); }
        let read = ControlFlowCosts::from_bytes(rem);
        proof { lemma_read_step::<ControlFlowCosts>(whole, ws, rem@, read); }
        let (control_flow, rem) = match read {
            Ok(pair) => pair,
            Err(e) => {
                proof { lemma_parsed_short::<OpcodeCosts>(whole, Err(e)); }
                return Err(e);
            },
        };
        proof {
            ws = ws + control_flow.words();
            assert(ws.len() == 29);
        }
        let value = OpcodeCosts { bit, add, mul, div, load, store, op_const, local, global, integer_comparison, conversion, unreachable, nop, current_memory, grow_memory, control_flow };
        proof { lemma_parsed_complete(whole, value, rem); }
        Ok((value, rem))
    }
}

impl Default for OpcodeCosts {
    fn default() -> (r: Self)
        ensures
            r == OpcodeCosts::spec_default(),
    {
        OpcodeCosts {
            bit: DEFAULT_BIT_COST,
            add: DEFAULT_WASM_ADD_COST,
            mul: DEFAULT_MUL_COST,
            div: DEFAULT_DIV_COST,
            load: DEFAULT_LOAD_COST,
            store: DEFAULT_STORE_COST,
            op_const: DEFAULT_CONST_COST,
            local: DEFAULT_LOCAL_COST,
            global: DEFAULT_GLOBAL_COST,
            integer_comparison: DEFAULT_INTEGER_COMPARISON_COST,
            conversion: DEFAULT_CONVERSION_COST,
            unreachable: DEFAULT_UNREACHABLE_COST,
            nop: DEFAULT_NOP_COST,
            current_memory: DEFAULT_CURRENT_MEMORY_COST,
            grow_memory: DEFAULT_GROW_MEMORY_COST,
            control_flow: ControlFlowCosts::default(),
        }
    }
}

impl WordLayout for OpcodeCosts {
    open spec fn words(&self) -> Seq<u32> {
        Seq::<u32>::empty()
            .push(self.bit)
            .push(self.add)
            .push(self.mul)
            .push(self.div)
            .push(self.load)
            .push(self.store)
            .push(self.op_const)
            .push(self.local)
            .push(self.global)
            .push(self.integer_comparison)
            .push(self.conversion)
            .push(self.unreachable)
            .push(self.nop)
            .push(self.current_memory)
            .push(self.grow_memory)
            + self.control_flow.words()
    }

    open spec fn from_words(ws: Seq<u32>) -> Self {
        OpcodeCosts {
            bit: ws[0],
            add: ws[1],
            mul: ws[2],
            div: ws[3],
            load: ws[4],
            store: ws[5],
            op_const: ws[6],
            local: ws[7],
            global: ws[8],
            integer_comparison: ws[9],
            conversion: ws[10],
            unreachable: ws[11],
            nop: ws[12],
            current_memory: ws[13],
            grow_memory: ws[14],
            control_flow: ControlFlowCosts::from_words(ws.subrange(15, 29)),
        }
    }

    open spec fn word_count() -> nat {
        29
    }

    proof fn lemma_words(&self) {
        self.control_flow.lemma_words();
        let s = self.words();
        lemma_subrange_all(s);
        let scalars = Seq::<u32>::empty()
            .push(self.bit)
            .push(self.add)
            .push(self.mul)
            .push(self.div)
            .push(self.load)
            .push(self.store)
            .push(self.op_const)
            .push(self.local)
            .push(self.global)
            .push(self.integer_comparison)
            .push(self.conversion)
            .push(self.unreachable)
            .push(self.nop)
            .push(self.current_memory)
            .push(self.grow_memory);
        lemma_concat_subrange(scalars, self.control_flow.words());
        lemma_subrange_of_prefix(s, 15, 29, 29);
        lemma_subrange_of_prefix(s, 0, 15, 29);
    }

    proof fn lemma_from_words(ws: Seq<u32>) {
        ControlFlowCosts::lemma_from_words(ws.subrange(15, 29));
        assert(Self::from_words(ws).words().subrange(0, 15) =~= ws.subrange(0, 15));
        lemma_subrange_join(ws, 0, 15, 29);
        lemma_subrange_all(ws);
        assert(Self::from_words(ws).words() =~= ws);
    }
}



/// The encoding of a BrTableCost is its fields in the order they are written, each `u32` as its four little-endian bytes and each table as its own encoding: 2 words.
pub proof fn lemma_br_table_cost_layout(c: BrTableCost)
    ensures
        encoding(c).len() == 8,
        encoding(c).subrange(0, 4) == le_bytes(c.cost),
        encoding(c).subrange(4, 8) == le_bytes(c.size_multiplier),
{
    c.lemma_words();
    lemma_encoding_len(c);
    let ws = c.words();
    lemma_encode_words_index(ws, 0);
    lemma_encode_words_index(ws, 1);
}

/// A read of the table takes its fields from the front of `bytes` in the
/// order they are written, each `u32` from its four little-endian bytes, and
/// leaves the rest.
pub proof fn lemma_br_table_cost_read(bytes: Seq<u8>, r: Result<(BrTableCost, &[u8]), Error>)
    requires
        parsed_as::<BrTableCost>(bytes, r),
        r is Ok,
    ensures
        r->Ok_0.0.cost == from_le_bytes(bytes.subrange(0, 4)),
        r->Ok_0.0.size_multiplier == from_le_bytes(bytes.subrange(4, 8)),
        r->Ok_0.1@ == bytes.skip(8),
{
    reveal(parsed_as);
    let v = r->Ok_0.0;
    lemma_encoding_of_parse::<BrTableCost>(bytes);
    lemma_br_table_cost_layout(v);
    let e = encoding(v);
    assert(bytes.take(8) =~= e);
    assert(bytes.subrange(0, 4) =~= e.subrange(0, 4));
    lemma_le_bytes_of(v.cost);
    assert(bytes.subrange(4, 8) =~= e.subrange(4, 8));
    lemma_le_bytes_of(v.size_multiplier);
}

/// The default BrTableCost table holds the chainspec's default costs.
pub proof fn lemma_br_table_cost_default_values()
    ensures
        BrTableCost::spec_default().cost == 440_000,
        BrTableCost::spec_default().size_multiplier == 100,
{
}

/// The encoding of a ControlFlowCosts is its fields in the order they are written, each `u32` as its four little-endian bytes and each table as its own encoding: 14 words.
pub proof fn lemma_control_flow_costs_layout(c: ControlFlowCosts)
    ensures
        encoding(c).len() == 56,
        encoding(c).subrange(0, 4) == le_bytes(c.block),
        encoding(c).subrange(4, 8) == le_bytes(c.op_loop),
        encoding(c).subrange(8, 12) == le_bytes(c.op_if),
        encoding(c).subrange(12, 16) == le_bytes(c.op_else),
        encoding(c).subrange(16, 20) == le_bytes(c.end),
        encoding(c).subrange(20, 24) == le_bytes(c.br),
        encoding(c).subrange(24, 28) == le_bytes(c.br_if),
        encoding(c).subrange(28, 32) == le_bytes(c.op_return),
        encoding(c).subrange(32, 36) == le_bytes(c.call),
        encoding(c).subrange(36, 40) == le_bytes(c.call_indirect),
        encoding(c).subrange(40, 44) == le_bytes(c.drop),
        encoding(c).subrange(44, 48) == le_bytes(c.select),
        encoding(c).subrange(48, 56) == encoding(c.br_table),
{
    c.lemma_words();
    lemma_encoding_len(c);
    let ws = c.words();
    lemma_encode_words_index(ws, 0);
    lemma_encode_words_index(ws, 1);
    lemma_encode_words_index(ws, 2);
    lemma_encode_words_index(ws, 3);
    lemma_encode_words_index(ws, 4);
    lemma_encode_words_index(ws, 5);
    lemma_encode_words_index(ws, 6);
    lemma_encode_words_index(ws, 7);
    lemma_encode_words_index(ws, 8);
    lemma_encode_words_index(ws, 9);
    lemma_encode_words_index(ws, 10);
    lemma_encode_words_index(ws, 11);
    BrTableCost::lemma_from_words(ws.subrange(12, 14));
    lemma_encode_words_subrange(ws, 12, 14);
}

/// A read of the table takes its fields from the front of `bytes` in the
/// order they are written, each `u32` from its four little-endian bytes, and
/// leaves the rest.
pub proof fn lemma_control_flow_costs_read(bytes: Seq<u8>, r: Result<(ControlFlowCosts, &[u8]), Error>)
    requires
        parsed_as::<ControlFlowCosts>(bytes, r),
        r is Ok,
    ensures
        r->Ok_0.0.block == from_le_bytes(bytes.subrange(0, 4)),
        r->Ok_0.0.op_loop == from_le_bytes(bytes.subrange(4, 8)),
        r->Ok_0.0.op_if == from_le_bytes(bytes.subrange(8, 12)),
        r->Ok_0.0.op_else == from_le_bytes(bytes.subrange(12, 16)),
        r->Ok_0.0.end == from_le_bytes(bytes.subrange(16, 20)),
        r->Ok_0.0.br == from_le_bytes(bytes.subrange(20, 24)),
        r->Ok_0.0.br_if == from_le_bytes(bytes.subrange(24, 28)),
        r->Ok_0.0.op_return == from_le_bytes(bytes.subrange(28, 32)),
        r->Ok_0.0.call == from_le_bytes(bytes.subrange(32, 36)),
        r->Ok_0.0.call_indirect == from_le_bytes(bytes.subrange(36, 40)),
        r->Ok_0.0.drop == from_le_bytes(bytes.subrange(40, 44)),
        r->Ok_0.0.select == from_le_bytes(bytes.subrange(44, 48)),
        encoding(r->Ok_0.0.br_table) == bytes.subrange(48, 56),
        r->Ok_0.1@ == bytes.skip(56),
{
    reveal(parsed_as);
    let v = r->Ok_0.0;
    lemma_encoding_of_parse::<ControlFlowCosts>(bytes);
    lemma_control_flow_costs_layout(v);
    let e = encoding(v);
    assert(bytes.take(56) =~= e);
    assert(bytes.subrange(0, 4) =~= e.subrange(0, 4));
    lemma_le_bytes_of(v.block);
    assert(bytes.subrange(4, 8) =~= e.subrange(4, 8));
    lemma_le_bytes_of(v.op_loop);
    assert(bytes.subrange(8, 12) =~= e.subrange(8, 12));
    lemma_le_bytes_of(v.op_if);
    assert(bytes.subrange(12, 16) =~= e.subrange(12, 16));
    lemma_le_bytes_of(v.op_else);
    assert(bytes.subrange(16, 20) =~= e.subrange(16, 20));
    lemma_le_bytes_of(v.end);
    assert(bytes.subrange(20, 24) =~= e.subrange(20, 24));
    lemma_le_bytes_of(v.br);
    assert(bytes.subrange(24, 28) =~= e.subrange(24, 28));
    lemma_le_bytes_of(v.br_if);
    assert(bytes.subrange(28, 32) =~= e.subrange(28, 32));
    lemma_le_bytes_of(v.op_return);
    assert(bytes.subrange(32, 36) =~= e.subrange(32, 36));
    lemma_le_bytes_of(v.call);
    assert(bytes.subrange(36, 40) =~= e.subrange(36, 40));
    lemma_le_bytes_of(v.call_indirect);
    assert(bytes.subrange(40, 44) =~= e.subrange(40, 44));
    lemma_le_bytes_of(v.drop);
    assert(bytes.subrange(44, 48) =~= e.subrange(44, 48));
    lemma_le_bytes_of(v.select);
    assert(bytes.subrange(48, 56) =~= e.subrange(48, 56));
}

/// The default ControlFlowCosts table holds the chainspec's default costs.
pub proof fn lemma_control_flow_costs_default_values()
    ensures
        ControlFlowCosts::spec_default().block == 440,
        ControlFlowCosts::spec_default().op_loop == 440,
        ControlFlowCosts::spec_default().op_if == 440,
        ControlFlowCosts::spec_default().op_else == 440,
        ControlFlowCosts::spec_default().end == 440,
        ControlFlowCosts::spec_default().br == 440_000,
        ControlFlowCosts::spec_default().br_if == 440_000,
        ControlFlowCosts::spec_default().op_return == 440,
        ControlFlowCosts::spec_default().call == 140_000,
        ControlFlowCosts::spec_default().call_indirect == 140_000,
        ControlFlowCosts::spec_default().drop == 440,
        ControlFlowCosts::spec_default().select == 440,
        ControlFlowCosts::spec_default().br_table == BrTableCost::spec_default(),
{
}

/// The encoding of a OpcodeCosts is its fields in the order they are written, each `u32` as its four little-endian bytes and each table as its own encoding: 29 words.
pub proof fn lemma_opcode_costs_layout(c: OpcodeCosts)
    ensures
        encoding(c).len() == 116,
        encoding(c).subrange(0, 4) == le_bytes(c.bit),
        encoding(c).subrange(4, 8) == le_bytes(c.add),
        encoding(c).subrange(8, 12) == le_bytes(c.mul),
        encoding(c).subrange(12, 16) == le_bytes(c.div),
        encoding(c).subrange(16, 20) == le_bytes(c.load),
        encoding(c).subrange(20, 24) == le_bytes(c.store),
        encoding(c).subrange(24, 28) == le_bytes(c.op_const),
        encoding(c).subrange(28, 32) == le_bytes(c.local),
        encoding(c).subrange(32, 36) == le_bytes(c.global),
        encoding(c).subrange(36, 40) == le_bytes(c.integer_comparison),
        encoding(c).subrange(40, 44) == le_bytes(c.conversion),
        encoding(c).subrange(44, 48) == le_bytes(c.unreachable),
        encoding(c).subrange(48, 52) == le_bytes(c.nop),
        encoding(c).subrange(52, 56) == le_bytes(c.current_memory),
        encoding(c).subrange(56, 60) == le_bytes(c.grow_memory),
        encoding(c).subrange(60, 116) == encoding(c.control_flow),
{
    c.lemma_words();
    lemma_encoding_len(c);
    let ws = c.words();
    lemma_encode_words_index(ws, 0);
    lemma_encode_words_index(ws, 1);
    lemma_encode_words_index(ws, 2);
    lemma_encode_words_index(ws, 3);
    lemma_encode_words_index(ws, 4);
    lemma_encode_words_index(ws, 5);
    lemma_encode_words_index(ws, 6);
    lemma_encode_words_index(ws, 7);
    lemma_encode_words_index(ws, 8);
    lemma_encode_words_index(ws, 9);
    lemma_encode_words_index(ws, 10);
    lemma_encode_words_index(ws, 11);
    lemma_encode_words_index(ws, 12);
    lemma_encode_words_index(ws, 13);
    lemma_encode_words_index(ws, 14);
    ControlFlowCosts::lemma_from_words(ws.subrange(15, 29));
    lemma_encode_words_subrange(ws, 15, 29);
}

/// A read of the table takes its fields from the front of `bytes` in the
/// order they are written, each `u32` from its four little-endian bytes, and
/// leaves the rest.
pub proof fn lemma_opcode_costs_read(bytes: Seq<u8>, r: Result<(OpcodeCosts, &[u8]), Error>)
    requires
        parsed_as::<OpcodeCosts>(bytes, r),
        r is Ok,
    ensures
        r->Ok_0.0.bit == from_le_bytes(bytes.subrange(0, 4)),
        r->Ok_0.0.add == from_le_bytes(bytes.subrange(4, 8)),
        r->Ok_0.0.mul == from_le_bytes(bytes.subrange(8, 12)),
        r->Ok_0.0.div == from_le_bytes(bytes.subrange(12, 16)),
        r->Ok_0.0.load == from_le_bytes(bytes.subrange(16, 20)),
        r->Ok_0.0.store == from_le_bytes(bytes.subrange(20, 24)),
        r->Ok_0.0.op_const == from_le_bytes(bytes.subrange(24, 28)),
        r->Ok_0.0.local == from_le_bytes(bytes.subrange(28, 32)),
        r->Ok_0.0.global == from_le_bytes(bytes.subrange(32, 36)),
        r->Ok_0.0.integer_comparison == from_le_bytes(bytes.subrange(36, 40)),
        r->Ok_0.0.conversion == from_le_bytes(bytes.subrange(40, 44)),
        r->Ok_0.0.unreachable == from_le_bytes(bytes.subrange(44, 48)),
        r->Ok_0.0.nop == from_le_bytes(bytes.subrange(48, 52)),
        r->Ok_0.0.current_memory == from_le_bytes(bytes.subrange(52, 56)),
        r->Ok_0.0.grow_memory == from_le_bytes(bytes.subrange(56, 60)),
        encoding(r->Ok_0.0.control_flow) == bytes.subrange(60, 116),
        r->Ok_0.1@ == bytes.skip(116),
{
    reveal(parsed_as);
    let v = r->Ok_0.0;
    lemma_encoding_of_parse::<OpcodeCosts>(bytes);
    lemma_opcode_costs_layout(v);
    let e = encoding(v);
    assert(bytes.take(116) =~= e);
    assert(bytes.subrange(0, 4) =~= e.subrange(0, 4));
    lemma_le_bytes_of(v.bit);
    assert(bytes.subrange(4, 8) =~= e.subrange(4, 8));
    lemma_le_bytes_of(v.add);
    assert(bytes.subrange(8, 12) =~= e.subrange(8, 12));
    lemma_le_bytes_of(v.mul);
    assert(bytes.subrange(12, 16) =~= e.subrange(12, 16));
    lemma_le_bytes_of(v.div);
    assert(bytes.subrange(16, 20) =~= e.subrange(16, 20));
    lemma_le_bytes_of(v.load);
    assert(bytes.subrange(20, 24) =~= e.subrange(20, 24));
    lemma_le_bytes_of(v.store);
    assert(bytes.subrange(24, 28) =~= e.subrange(24, 28));
    lemma_le_bytes_of(v.op_const);
    assert(bytes.subrange(28, 32) =~= e.subrange(28, 32));
    lemma_le_bytes_of(v.local);
    assert(bytes.subrange(32, 36) =~= e.subrange(32, 36));
    lemma_le_bytes_of(v.global);
    assert(bytes.subrange(36, 40) =~= e.subrange(36, 40));
    lemma_le_bytes_of(v.integer_comparison);
    assert(bytes.subrange(40, 44) =~= e.subrange(40, 44));
    lemma_le_bytes_of(v.conversion);
    assert(bytes.subrange(44, 48) =~= e.subrange(44, 48));
    lemma_le_bytes_of(v.unreachable);
    assert(bytes.subrange(48, 52) =~= e.subrange(48, 52));
    lemma_le_bytes_of(v.nop);
    assert(bytes.subrange(52, 56) =~= e.subrange(52, 56));
    lemma_le_bytes_of(v.current_memory);
    assert(bytes.subrange(56, 60) =~= e.subrange(56, 60));
    lemma_le_bytes_of(v.grow_memory);
    assert(bytes.subrange(60, 116) =~= e.subrange(60, 116));
}

/// The default OpcodeCosts table holds the chainspec's default costs.
pub proof fn lemma_opcode_costs_default_values()
    ensures
        OpcodeCosts::spec_default().bit == 300,
        OpcodeCosts::spec_default().add == 210,
        OpcodeCosts::spec_default().mul == 240,
        OpcodeCosts::spec_default().div == 320,
        OpcodeCosts::spec_default().load == 2500,
        OpcodeCosts::spec_default().store == 4700,
        OpcodeCosts::spec_default().op_const == 110,
        OpcodeCosts::spec_default().local == 390,
        OpcodeCosts::spec_default().global == 390,
        OpcodeCosts::spec_default().integer_comparison == 250,
        OpcodeCosts::spec_default().conversion == 420,
        OpcodeCosts::spec_default().unreachable == 270,
        OpcodeCosts::spec_default().nop == 200,
        OpcodeCosts::spec_default().current_memory == 290,
        OpcodeCosts::spec_default().grow_memory == 240_000,
        OpcodeCosts::spec_default().control_flow == ControlFlowCosts::spec_default(),
{
}

} // verus!
