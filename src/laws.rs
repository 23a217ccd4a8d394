use vstd::prelude::*;

use crate::expressions::{column_evaluation, outcomes, row_outcome, Relation};
use crate::network::{covers, v4_mask, v6_mask, whole_space, NetworkAddress};
use crate::parse::{ip_network_of, masked, network_of_cell};

verus! {

/// Every cell of a column holds a network.
pub open spec fn all_parse(column: Seq<Option<String>>) -> bool {
    forall|i: int| 0 <= i < column.len() ==> (#[trigger] network_of_cell(column[i])) is Some
}

/// Every network contains itself.
pub proof fn lemma_contains_reflexive(n: NetworkAddress)
    requires
        n.wf(),
    ensures
        covers(n, n),
{
}

/// A network reduced to its network address contains itself, whatever its
/// prefix.
pub proof fn lemma_masked_contains_itself(n: NetworkAddress)
    ensures
        covers(masked(n), masked(n)),
{
    match n {
        NetworkAddress::V4(a) => {
            let b = a.base;
            let m = v4_mask(a.prefix);
            assert((b & m) & m == b & m) by (bit_vector);
        },
        NetworkAddress::V6(a) => {
            let b = a.base;
            let m = v6_mask(a.prefix);
            assert((b & m) & m == b & m) by (bit_vector);
        },
    }
}

/// A column whose cells all hold networks, tested against itself, gives true
/// on every row.
pub proof fn lemma_column_contains_itself(values: Seq<Option<String>>)
    requires
        all_parse(values),
        values.len() <= usize::MAX,
    ensures
        column_evaluation(Relation::Contains, values, values) matches Ok(out) && out.len()
            == values.len() && (forall|i: int| 0 <= i < out.len() ==> #[trigger] out[i] == Some(true)),
{
    assert forall|i: int| 0 <= i < values.len() implies (#[trigger] network_of_cell(values[i]))
        matches Some(n) && covers(n, n) by {
        let cell = values[i];
        assert(network_of_cell(cell) is Some);
        lemma_masked_contains_itself(ip_network_of(cell->Some_0@)->Some_0);
    }
}

/// The zero-prefix network of a family contains every network of that family.
pub proof fn lemma_whole_space_contains_all(n: NetworkAddress)
    ensures
        covers(whole_space(n.is_v6()), n),
{
    match n {
        NetworkAddress::V4(a) => {
            let b = a.base;
            assert(b & 0u32 == 0u32) by (bit_vector);
        },
        NetworkAddress::V6(a) => {
            let b = a.base;
            assert(b & 0u128 == 0u128) by (bit_vector);
        },
    }
}

/// Against a broadcast argument that is the zero-prefix network of a family,
/// every row holding a network of that family is contained.
pub proof fn lemma_column_in_whole_space(
    values: Seq<Option<String>>,
    argument: Option<String>,
    v6: bool,
)
    requires
        network_of_cell(argument) == Some(whole_space(v6)),
        forall|i: int|
            0 <= i < values.len() ==> ((#[trigger] network_of_cell(values[i])) matches Some(n)
                && n.is_v6() == v6),
    ensures
        column_evaluation(Relation::Contains, values, seq![argument]) matches Ok(out) && out.len()
            == values.len() && (forall|i: int| 0 <= i < out.len() ==> #[trigger] out[i] == Some(true)),
{
    assert forall|i: int| 0 <= i < values.len() implies (#[trigger] network_of_cell(values[i]))
        matches Some(n) && covers(whole_space(v6), n) by {
        lemma_whole_space_contains_all(network_of_cell(values[i])->Some_0);
    }
}

/// On one row, `subnet_of` equals `contains` with the row and the argument
/// exchanged.
pub proof fn lemma_row_duality(row: Option<NetworkAddress>, arg: Option<NetworkAddress>)
    ensures
        row_outcome(Relation::SubnetOf, row, arg) == row_outcome(Relation::Contains, arg, row),
{
}

/// For two columns of equal length whose cells all hold networks, `subnet_of`
/// of the first against the second equals `contains` of the second against
/// the first.
pub proof fn lemma_subnet_of_is_contains_swapped(a: Seq<Option<String>>, b: Seq<Option<String>>)
    requires
        a.len() == b.len(),
        a.len() <= usize::MAX,
        all_parse(a),
        all_parse(b),
    ensures
        column_evaluation(Relation::SubnetOf, a, b) == column_evaluation(Relation::Contains, b, a),
{
    if a.len() == 1 {
        assert(network_of_cell(a[0]) is Some);
        assert(network_of_cell(b[0]) is Some);
    }
    assert(outcomes(Relation::SubnetOf, a, b) =~= outcomes(Relation::Contains, b, a));
}

/// Reordering the rows of the value column, and the rows of a per-row
/// argument with them, reorders the outcomes in the same way; a broadcast
/// argument stays as it is. Errors do not change.
pub proof fn lemma_outcomes_follow_row_order(
    relation: Relation,
    values: Seq<Option<String>>,
    argument: Seq<Option<String>>,
    perm: Seq<int>,
    values2: Seq<Option<String>>,
    argument2: Seq<Option<String>>,
)
    requires
        values.len() <= usize::MAX,
        perm.len() == values.len(),
        forall|i: int| 0 <= i < perm.len() ==> 0 <= #[trigger] perm[i] < values.len(),
        forall|i: int, j: int| 0 <= i < j < perm.len() ==> perm[i] != perm[j],
        values2.len() == values.len(),
        forall|i: int| 0 <= i < values.len() ==> #[trigger] values2[i] == values[perm[i]],
        argument.len() == values.len() && argument.len() != 1 ==> argument2.len() == argument.len()
            && (forall|i: int| 0 <= i < values.len() ==> #[trigger] argument2[i] == argument[perm[i]]),
        !(argument.len() == values.len() && argument.len() != 1) ==> argument2 == argument,
    ensures
        match (
            column_evaluation(relation, values, argument),
            column_evaluation(relation, values2, argument2),
        ) {
            (Ok(out), Ok(out2)) => out2.len() == out.len() && (forall|i: int|
                0 <= i < out.len() ==> #[trigger] out2[i] == out[perm[i]]),
            (Err(e), Err(e2)) => e == e2,
            _ => false,
        },
{
    assert(argument2.len() == argument.len());
    if argument.len() == 1 {
        assert(argument2[0] == argument[0]);
    }
}

/// The outcome of a row depends on that row's value and the argument alone,
/// and the outcomes keep the rows' number and order.
pub proof fn lemma_rows_independent(
    relation: Relation,
    v1: Seq<Option<String>>,
    v2: Seq<Option<String>>,
    argument: Seq<Option<String>>,
    i: int,
)
    requires
        v1.len() == v2.len(),
        0 <= i < v1.len(),
        v1[i] == v2[i],
    ensures
        outcomes(relation, v1, argument).len() == v1.len(),
        outcomes(relation, v1, argument)[i] == outcomes(relation, v2, argument)[i],
{
}

} // verus!
