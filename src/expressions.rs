use vstd::prelude::*;

use crate::argument::{
    argument_at, resolution_error, resolve_network_argument, ArgumentRole, NetworkArgument,
    NetworkError,
};
use crate::network::{covers, network_contains, NetworkAddress};
use crate::parse::{network_of_cell, parse_optional_network};

verus! {

/// Which operand of the containment test each row plays.
///
/// The two operations mirror each other: `subnet_of(a, b)` is `contains(b, a)`.
/// Note for maintainers: `contains` asks whether the row lies within the
/// argument, so there the argument is the supernet and the row the subnet;
/// `subnet_of` exchanges the two.
#[derive(Clone, Copy, Debug, PartialEq, Eq, Structural)]
pub enum Relation {
    /// The argument is the supernet, the row's network the subnet.
    Contains,
    /// The row's network is the supernet, the argument the subnet.
    SubnetOf,
}

impl Relation {
    pub open spec fn role(self) -> ArgumentRole {
        match self {
            Relation::Contains => ArgumentRole::Needle,
            Relation::SubnetOf => ArgumentRole::Supernet,
        }
    }

    pub fn role_of(self) -> (r: ArgumentRole)
        ensures
            r == self.role(),
    {
        match self {
            Relation::Contains => ArgumentRole::Needle,
            Relation::SubnetOf => ArgumentRole::Supernet,
        }
    }
}

/// The outcome of one row: null unless both networks are present.
pub open spec fn row_outcome(
    relation: Relation,
    row: Option<NetworkAddress>,
    arg: Option<NetworkAddress>,
) -> Option<bool> {
    match (row, arg) {
        (Some(n), Some(a)) => Some(
            match relation {
                Relation::Contains => covers(a, n),
                Relation::SubnetOf => covers(n, a),
            },
        ),
        _ => None,
    }
}

/// The outcomes of all rows, in input order, once the argument is accepted.
pub open spec fn outcomes(
    relation: Relation,
    values: Seq<Option<String>>,
    argument: Seq<Option<String>>,
) -> Seq<Option<bool>> {
    Seq::new(
        values.len(),
        |i: int| row_outcome(relation, network_of_cell(values[i]), argument_at(argument, i)),
    )
}

/// What an operation gives for a value column and an argument column.
pub open spec fn column_evaluation(
    relation: Relation,
    values: Seq<Option<String>>,
    argument: Seq<Option<String>>,
) -> Result<Seq<Option<bool>>, NetworkError> {
    match resolution_error(argument, values.len() as usize, relation.role()) {
        Some(e) => Err(e),
        None => Ok(outcomes(relation, values, argument)),
    }
}

/// What an operation gives for its operands: the value column first, the
/// network argument second.
pub open spec fn evaluation(relation: Relation, inputs: Seq<Vec<Option<String>>>) -> Result<
    Seq<Option<bool>>,
    NetworkError,
> {
    if inputs.len() != 2 {
        Err(NetworkError::Arity { got: inputs.len() as usize })
    } else {
        column_evaluation(relation, inputs[0]@, inputs[1]@)
    }
}

/// An executable result and a specified one agree.
pub open spec fn agrees(
    r: Result<Vec<Option<bool>>, NetworkError>,
    s: Result<Seq<Option<bool>>, NetworkError>,
) -> bool {
    match (r, s) {
        (Ok(v), Ok(w)) => v@ == w,
        (Err(e), Err(f)) => e == f,
        _ => false,
    }
}

fn evaluate_rows(relation: Relation, values: &Vec<Option<String>>, argument: &NetworkArgument) -> (r:
    Vec<Option<bool>>)
    requires
        argument.wf(),
    ensures
        r@.len() == values@.len(),
        forall|i: int|
            0 <= i < values@.len() ==> #[trigger] r@[i] == row_outcome(
                relation,
                network_of_cell(values@[i]),
                argument.spec_value_at(i),
            ),
{
    let mut out: Vec<Option<bool>> = Vec::new();
    let mut idx: usize = 0;
    while idx < values.len()
        invariant
            argument.wf(),
            idx <= values@.len(),
            out@.len() == idx,
            forall|i: int|
                0 <= i < idx ==> #[trigger] out@[i] == row_outcome(
                    relation,
                    network_of_cell(values@[i]),
                    argument.spec_value_at(i),
                ),
        decreases values@.len() - idx,
    {
        let outcome = match (parse_optional_network(&values[idx]), argument.value_at(idx)) {
            (Some(network), Some(arg)) => match relation {
                Relation::Contains => Some(network_contains(&arg, &network)),
                Relation::SubnetOf => Some(network_contains(&network, &arg)),
            },
            _ => None,
        };
        out.push(outcome);
        idx = idx + 1;
    }
    out
}

/// Runs one operation over its operands: checks their number, resolves the
/// argument, then evaluates every row.
pub fn evaluate(relation: Relation, inputs: &[Vec<Option<String>>]) -> (r: Result<
    Vec<Option<bool>>,
    NetworkError,
>)
    ensures
        agrees(r, evaluation(relation, inputs@)),
{
    if inputs.len() != 2 {
        return Err(NetworkError::Arity { got: inputs.len() });
    }
    let values = &inputs[0];
    let len = values.len();
    let argument = match resolve_network_argument(&inputs[1], relation.role_of(), len) {
        Ok(a) => a,
        Err(e) => return Err(e),
    };
    let out = evaluate_rows(relation, values, &argument);
    assert(out@ =~= outcomes(relation, values@, inputs@[1]@));
    Ok(out)
}

/// For each row, whether the row's network is contained within the argument
/// network (null where either is missing or unparsable).
pub fn cidr_contains(inputs: &[Vec<Option<String>>]) -> (r: Result<Vec<Option<bool>>, NetworkError>)
    ensures
        agrees(r, evaluation(Relation::Contains, inputs@)),
{
    evaluate(Relation::Contains, inputs)
}

/// The mirror of `cidr_contains`: for each row, whether the argument network
/// lies within the row's network (null where either is missing or
/// unparsable), so that `subnet_of(a, b)` equals `contains(b, a)`.
pub fn cidr_subnet_of(inputs: &[Vec<Option<String>>]) -> (r: Result<Vec<Option<bool>>, NetworkError>)
    ensures
        agrees(r, evaluation(Relation::SubnetOf, inputs@)),
{
    evaluate(Relation::SubnetOf, inputs)
}

} // verus!
