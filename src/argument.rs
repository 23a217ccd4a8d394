use vstd::prelude::*;

use crate::network::NetworkAddress;
use crate::parse::{network_of_cell, parse_optional_network};

verus! {

/// The part that the second operand plays, named in errors.
#[derive(Clone, Copy, Debug, PartialEq, Eq, Structural)]
pub enum ArgumentRole {
    /// The argument of `contains`.
    Needle,
    /// The argument of `subnet_of`.
    Supernet,
}

/// A failure of a whole call, raised before any row is evaluated.
#[derive(Clone, Debug)]
pub enum NetworkError {
    /// The operation was given `got` operands instead of two.
    Arity { got: usize },
    /// The single-entry (broadcast) argument is null or no network.
    InvalidLiteralArgument { role: ArgumentRole, value: Option<String> },
    /// The argument column has neither one entry nor one per input row.
    LengthMismatch { role: ArgumentRole, expected: usize, got: usize },
}

/// The second operand once resolved: one network for every row, or one
/// (possibly absent) network per row.
pub enum NetworkArgument {
    Literal(NetworkAddress),
    Series(Vec<Option<NetworkAddress>>),
}

impl NetworkArgument {
    /// The network that applies to row `idx`.
    pub open spec fn spec_value_at(self, idx: int) -> Option<NetworkAddress> {
        match self {
            NetworkArgument::Literal(n) => Some(n),
            NetworkArgument::Series(v) => if 0 <= idx < v@.len() {
                v@[idx]
            } else {
                None
            },
        }
    }

    /// Every network held is well formed.
    pub open spec fn wf(self) -> bool {
        match self {
            NetworkArgument::Literal(n) => n.wf(),
            NetworkArgument::Series(v) => forall|i: int|
                0 <= i < v@.len() ==> (#[trigger] v@[i] matches Some(n) ==> n.wf()),
        }
    }

    pub fn value_at(&self, idx: usize) -> (r: Option<NetworkAddress>)
        requires
            self.wf(),
        ensures
            r == self.spec_value_at(idx as int),
            r matches Some(n) ==> n.wf(),
    {
        match self {
            NetworkArgument::Literal(network) => Some(*network),
            NetworkArgument::Series(values) => {
                if idx < values.len() {
                    values[idx]
                } else {
                    None
                }
            },
        }
    }
}

/// The network that an argument column gives to row `idx`: its single entry
/// when it has one, else its entry at `idx`.
pub open spec fn argument_at(column: Seq<Option<String>>, idx: int) -> Option<NetworkAddress> {
    if column.len() == 1 {
        network_of_cell(column[0])
    } else {
        network_of_cell(column[idx])
    }
}

/// The error, if any, with which an argument column is refused for an input of
/// `expected_len` rows.
pub open spec fn resolution_error(
    column: Seq<Option<String>>,
    expected_len: usize,
    role: ArgumentRole,
) -> Option<NetworkError> {
    if column.len() == 1 {
        if network_of_cell(column[0]) is None {
            Some(NetworkError::InvalidLiteralArgument { role, value: column[0] })
        } else {
            None
        }
    } else if column.len() != expected_len {
        Some(NetworkError::LengthMismatch { role, expected: expected_len, got: column.len() as usize })
    } else {
        None
    }
}

fn clone_cell(cell: &Option<String>) -> (r: Option<String>)
    ensures
        r == *cell,
{
    match cell {
        Some(s) => Some(s.clone()),
        None => None,
    }
}

/// Resolves the second operand against an input of `expected_len` rows: a
/// single entry is a literal that must parse; a column of `expected_len`
/// entries is parsed row by row, with null or bad entries absent.
pub fn resolve_network_argument(
    column: &Vec<Option<String>>,
    role: ArgumentRole,
    expected_len: usize,
) -> (r: Result<NetworkArgument, NetworkError>)
    ensures
        resolution_error(column@, expected_len, role) matches Some(e) ==> r == Err::<
            NetworkArgument,
            NetworkError,
        >(e),
        resolution_error(column@, expected_len, role) is None ==> (r matches Ok(a) && a.wf() && (
        forall|i: int|
            0 <= i < expected_len ==> #[trigger] a.spec_value_at(i) == argument_at(column@, i))),
        r matches Ok(NetworkArgument::Series(v)) ==> v@.len() == expected_len,
        column@.len() == 1 && network_of_cell(column@[0]) is Some ==> (r matches Ok(
            NetworkArgument::Literal(n),
        ) && Some(n) == network_of_cell(column@[0])),
        column@.len() != 1 && column@.len() == expected_len ==> (r matches Ok(
            NetworkArgument::Series(v),
        ) && v@.len() == expected_len && (forall|i: int|
            0 <= i < expected_len ==> #[trigger] v@[i] == network_of_cell(column@[i]))),
{
    if column.len() == 1 {
        return match parse_optional_network(&column[0]) {
            Some(network) => Ok(NetworkArgument::Literal(network)),
            None => Err(NetworkError::InvalidLiteralArgument { role, value: clone_cell(&column[0]) }),
        };
    }
    if column.len() != expected_len {
        return Err(NetworkError::LengthMismatch { role, expected: expected_len, got: column.len() });
    }
    let mut parsed: Vec<Option<NetworkAddress>> = Vec::new();
    let mut i: usize = 0;
    while i < column.len()
        invariant
            i <= column@.len(),
            parsed@.len() == i,
            forall|j: int| 0 <= j < i ==> #[trigger] parsed@[j] == network_of_cell(column@[j]),
            forall|j: int| 0 <= j < i ==> (#[trigger] parsed@[j] matches Some(n) ==> n.wf()),
        decreases column@.len() - i,
    {
        parsed.push(parse_optional_network(&column[i]));
        i = i + 1;
    }
    Ok(NetworkArgument::Series(parsed))
}

} // verus!
