//! What is generated for a struct.
use crate::entry_impl::{
    self, make_binary_tree_chain, Chain, MetricsField, MetricsFields,
};
use vstd::prelude::*;

verus! {

/// A statement that writes a part of a struct.
pub enum StructWrite<'a, T> {
    /// Writes the configuration held by the field with this name.
    Configuration(&'a T),
    /// Does what this statement does.
    Fields(&'a T),
}

/// The statements that write a struct: first its configuration, then its fields.
pub open spec fn write_statements<'a, T>(configuration: Seq<T>, writes: Seq<T>) -> Seq<
    StructWrite<'a, T>,
> {
    configuration.map_values(|field: T| StructWrite::Configuration(&field)) + writes.map_values(
        |write: T| StructWrite::Fields(&write),
    )
}

/// Generates the statements that write a struct.
pub fn generate_write_statements<'a, T>(
    fields: &'a MetricsFields<T>,
    configuration_fields: &'a Vec<T>,
) -> (r: Vec<StructWrite<'a, T>>)
    ensures
        r@ == write_statements(configuration_fields@, fields.writes@),
{
    let mut writes: Vec<StructWrite<'a, T>> = Vec::new();
    let ghost all = write_statements(configuration_fields@, fields.writes@);
    let n: usize = configuration_fields.len();
    for i in 0..n
        invariant
            n == configuration_fields.len(),
            all == write_statements(configuration_fields@, fields.writes@),
            writes@ == all.take(i as int),
    {
        writes.push(StructWrite::Configuration(&configuration_fields[i]));
        assert(writes@ =~= all.take(i + 1));
    }
    let m: usize = fields.writes.len();
    for i in 0..m
        invariant
            n == configuration_fields.len(),
            m == fields.writes.len(),
            all == write_statements(configuration_fields@, fields.writes@),
            writes@ == all.take(n + i),
    {
        writes.push(StructWrite::Fields(&fields.writes[i]));
        assert(writes@ =~= all.take(n + i + 1));
    }
    assert(all.take(n + m) =~= all);
    writes
}

/// Generates the expression that iterates over the sample group of a struct.
pub fn generate_sample_group_statements<'a, T>(fields: &'a Vec<MetricsField<T>>) -> (r: Chain<&'a T>)
    ensures
        entry_impl::referents(r.leaves()) == entry_impl::field_sample_groups(
            fields@,
            fields@.len(),
        ),
        r.balanced(),
{
    let mut iters: Vec<&'a T> = Vec::new();
    assert(entry_impl::referents(iters@) =~= entry_impl::field_sample_groups(fields@, 0));
    let n: usize = fields.len();
    for index in 0..n
        invariant
            n == fields.len(),
            entry_impl::referents(iters@) == entry_impl::field_sample_groups(fields@, index as nat),
    {
        if let Some(group) = &fields[index].sample_group {
            let ghost before = iters@;
            iters.push(&group.iter);
            assert(entry_impl::referents(iters@) =~= entry_impl::referents(before).push(group.iter));
        }
    }
    make_binary_tree_chain(iters)
}

/// All that is generated for a struct.
pub struct StructEntryImpl<'a, T> {
    pub writes: Vec<StructWrite<'a, T>>,
    pub sample_groups: Chain<&'a T>,
}

/// Generates the implementation of an inflectable entry for a struct.
pub fn generate_struct_entry_impl<'a, T>(
    fields: &'a MetricsFields<T>,
    configuration_fields: &'a Vec<T>,
) -> (r: StructEntryImpl<'a, T>)
    ensures
        r.writes@ == write_statements(configuration_fields@, fields.writes@),
        entry_impl::referents(r.sample_groups.leaves()) == entry_impl::field_sample_groups(
            fields.fields@,
            fields.fields@.len(),
        ),
        r.sample_groups.balanced(),
{
    let writes = generate_write_statements(fields, configuration_fields);
    let sample_groups = generate_sample_group_statements(&fields.fields);
    StructEntryImpl { writes, sample_groups }
}

} // verus!
