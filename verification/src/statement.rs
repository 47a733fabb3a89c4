//! Binding: the parameters of a serialised query are bound to its statement
//! one by one, each as text, in the order of the placeholders.

use crate::driver::{bind_text, bound_values, new_query, statement_text, BoundQuery};
use vstd::prelude::*;
use vstd::string::*;

verus! {

/// Makes the statement for `sql` and binds `params` to it in order: the
/// first parameter to the first placeholder, and so on. Each is bound as
/// text; the driver and the engine do any coercion.
pub fn bind_parameters<'q>(sql: &'q str, params: &Vec<String>) -> (q: BoundQuery<'q>)
    ensures
        statement_text(q) == sql@,
        bound_values(q) == params.deep_view(),
{
    let mut q = new_query(sql);
    let mut i: usize = 0;
    while i < params.len()
        invariant
            i <= params.len(),
            statement_text(q) == sql@,
            bound_values(q) == params.deep_view().take(i as int),
        decreases params.len() - i,
    {
        let ghost bound = bound_values(q);
        q = bind_text(q, params[i].clone());
        assert(bound_values(q) =~= params.deep_view().take(i + 1));
        i += 1;
    }
    assert(params.deep_view().take(params.len() as int) =~= params.deep_view());
    q
}

} // verus!
