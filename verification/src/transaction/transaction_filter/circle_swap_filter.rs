//! The filter that looks for token transfers that run in a circle.
use crate::parsed_instruction::{
    all_have_transfer_accounts, lemma_inner_have_transfer_accounts, lemma_nodes_view, nodes_view, InstructionNode, ParsedInstruction,
};
use crate::token_transfer_data::TokenTransferData;
use crate::transaction::transaction_filter::{
    TransactionFilter, TransactionFilterContext, TransactionProps, TransactionPropsProvider,
};
use crate::utils::TransactionAccounts;
use vstd::hash_set::StringHashSet;
use vstd::prelude::*;

verus! {

/// Accepts a transaction in which a token transfer pays into an account
/// that an earlier transfer paid out of.
///
/// The instructions are visited in the order of the tree: an instruction,
/// then the instructions below it, then the next instruction. The filter
/// keeps the sources of the transfers it has visited and accepts at the
/// first transfer whose destination is among them. The source of a
/// transfer joins the kept sources only after its destination was looked
/// up, so a transfer from an account to itself is not a circle.
pub struct CircleSwapFilter;

/// Where a visit of instructions stands: whether a circle was found, and
/// the sources kept so far.
pub struct Visit {
    pub found: bool,
    pub seen: Set<Seq<char>>,
}

/// The key at `position`, if the account index has one there.
pub open spec fn key_at(keys: Seq<String>, position: u8) -> Option<Seq<char>> {
    if (position as int) < keys.len() {
        Some(keys[position as int]@)
    } else {
        None
    }
}

/// The visit after one transfer. A transfer whose destination has no key
/// changes nothing. A transfer whose destination is a kept source is a
/// circle. Any other transfer adds its source, if that has a key.
pub open spec fn after_transfer(
    keys: Seq<String>,
    seen: Set<Seq<char>>,
    transfer: TokenTransferData,
) -> Visit {
    match key_at(keys, transfer.destination) {
        Some(destination) => if seen.contains(destination) {
            Visit { found: true, seen }
        } else {
            match key_at(keys, transfer.source) {
                Some(source) => Visit { found: false, seen: seen.insert(source) },
                None => Visit { found: false, seen },
            }
        },
        None => Visit { found: false, seen },
    }
}

/// The visit after an instruction and the instructions below it.
pub open spec fn after_node(keys: Seq<String>, seen: Set<Seq<char>>, node: InstructionNode) -> Visit
    decreases node,
{
    let own = match node.token_transfer() {
        Some(transfer) => after_transfer(keys, seen, transfer),
        None => Visit { found: false, seen },
    };
    if own.found {
        own
    } else {
        match node.inner_instructions {
            Some(inner) => after_nodes(keys, own.seen, inner),
            None => own,
        }
    }
}

/// The visit after a sequence of instructions, each with the instructions
/// below it. The visit ends at the first circle.
pub open spec fn after_nodes(
    keys: Seq<String>,
    seen: Set<Seq<char>>,
    nodes: Seq<InstructionNode>,
) -> Visit
    decreases nodes,
{
    if nodes.len() == 0 {
        Visit { found: false, seen }
    } else {
        let first = after_node(keys, seen, nodes[0]);
        if first.found {
            first
        } else {
            after_nodes(keys, first.seen, nodes.drop_first())
        }
    }
}

/// Whether the instruction tree of a transaction holds a circle. A
/// transaction without a tree holds none.
pub open spec fn has_circle(keys: Seq<String>, instructions: Option<Seq<InstructionNode>>) -> bool {
    match instructions {
        Some(nodes) => after_nodes(keys, Set::empty(), nodes).found,
        None => false,
    }
}

/// The views of instructions that may be missing.
pub open spec fn instructions_view(instructions: Option<&[ParsedInstruction]>) -> Option<
    Seq<InstructionNode>,
> {
    match instructions {
        Some(list) => Some(nodes_view(list@)),
        None => None,
    }
}

/// A tree of one transfer holds no circle, even where the transfer pays
/// into the account that it pays out of.
pub proof fn lemma_single_transfer_is_no_circle(keys: Seq<String>, node: InstructionNode)
    requires
        node.inner_instructions is None,
    ensures
        !has_circle(keys, Some(seq![node])),
{
    let first = after_node(keys, Set::empty(), node);
    assert(!after_nodes(keys, first.seen, seq![node].drop_first()).found);
}

impl CircleSwapFilter {
    /// Whether the instruction tree holds a circle.
    pub fn filter_instructions(
        accounts: &TransactionAccounts<String>,
        parsed_instructions: Option<&[ParsedInstruction]>,
    ) -> (accepted: bool)
        requires
            parsed_instructions matches Some(list) ==> all_have_transfer_accounts(
                nodes_view(list@),
            ),
        ensures
            accepted == has_circle(accounts@, instructions_view(parsed_instructions)),
    {
        let mut source = StringHashSet::new();
        if let Some(parsed_instructions) = parsed_instructions {
            Self::handle_instructions(parsed_instructions, &mut source, accounts)
        } else {
            false
        }
    }

    /// Visits the instructions of `list` in their order, each with the
    /// instructions below it, and stops at the first circle.
    pub fn handle_instructions(
        list: &[ParsedInstruction],
        source: &mut StringHashSet,
        accounts: &TransactionAccounts<String>,
    ) -> (found: bool)
        requires
            all_have_transfer_accounts(nodes_view(list@)),
        ensures
            found == after_nodes(accounts@, old(source)@, nodes_view(list@)).found,
            final(source)@ == after_nodes(accounts@, old(source)@, nodes_view(list@)).seen,
        decreases list@,
    {
        let ghost keys = accounts@;
        let ghost nodes = nodes_view(list@);
        proof {
            lemma_nodes_view(list@);
            assert(nodes.skip(0) =~= nodes);
        }
        let mut i: usize = 0;
        while i < list.len()
            invariant
                i <= list@.len(),
                keys == accounts@,
                nodes == nodes_view(list@),
                nodes.len() == list@.len(),
                forall|j: int| 0 <= j < list@.len() ==> (#[trigger] nodes[j]) == list@[j]@,
                all_have_transfer_accounts(nodes),
                after_nodes(keys, old(source)@, nodes) == after_nodes(
                    keys,
                    source@,
                    nodes.skip(i as int),
                ),
            decreases list@.len() - i,
        {
            proof {
                assert(nodes.skip(i as int).drop_first() =~= nodes.skip(i + 1));
            }
            if Self::handle_instruction(&list[i], source, accounts) {
                return true;
            }
            i += 1;
        }
        false
    }

    /// Visits one instruction and then the instructions below it. Returns
    /// whether a circle was found.
    pub fn handle_instruction(
        parsed_instruction: &ParsedInstruction,
        source: &mut StringHashSet,
        accounts: &TransactionAccounts<String>,
    ) -> (found: bool)
        requires
            parsed_instruction@.tree_has_transfer_accounts(),
        ensures
            found == after_node(accounts@, old(source)@, parsed_instruction@).found,
            final(source)@ == after_node(accounts@, old(source)@, parsed_instruction@).seen,
        decreases parsed_instruction,
    {
        if let Some(transfer_data) = parsed_instruction.get_token_transfer_data() {
            if Self::handle_token_transfer_data(source, accounts, &transfer_data) {
                return true;
            }
        }
        if let Some(inner) = parsed_instruction.inner_instructions.as_ref() {
            proof {
                lemma_nodes_view(inner@);
                lemma_inner_have_transfer_accounts(parsed_instruction@);
            }
            return Self::handle_instructions(inner.as_slice(), source, accounts);
        }
        false
    }

    /// Looks up the destination of a transfer among the kept sources, and
    /// keeps its source if the destination is not among them. Returns
    /// whether it is.
    pub fn handle_token_transfer_data(
        source: &mut StringHashSet,
        accounts: &TransactionAccounts<String>,
        transfer_data: &TokenTransferData,
    ) -> (found: bool)
        ensures
            found == after_transfer(accounts@, old(source)@, *transfer_data).found,
            final(source)@ == after_transfer(accounts@, old(source)@, *transfer_data).seen,
    {
        if let Some(destination) = accounts.get(transfer_data.destination as usize) {
            if source.contains(destination.as_str()) {
                return true;
            } else {
                if let Some(s) = accounts.get(transfer_data.source as usize) {
                    source.insert(s.clone());
                }
            }
        }
        false
    }
}

impl TransactionFilter for CircleSwapFilter {
    type ContextType = TransactionFilterContext;

    open spec fn admits(&self, props: TransactionProps) -> bool {
        props.parsed_instructions matches Some(nodes) ==> all_have_transfer_accounts(nodes)
    }

    open spec fn accepts(&self, props: TransactionProps) -> bool {
        has_circle(props.accounts, props.parsed_instructions)
    }

    fn filter(&self, obj: &dyn TransactionPropsProvider, _context: &mut Self::ContextType) -> (accepted:
        bool)
        ensures
            *final(_context) == *old(_context),
    {
        let accounts = obj.get_accounts();
        Self::filter_instructions(&accounts, obj.get_parsed_instructions())
    }
}

} // verus!
