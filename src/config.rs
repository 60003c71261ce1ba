use crate::errors::ApiError;
use vstd::prelude::*;

verus! {

/// The names, in order, of the variables that are not set.
pub open spec fn missing_names(vars: Seq<(String, bool)>) -> Seq<Seq<char>>
    decreases vars.len(),
{
    if vars.len() == 0 {
        Seq::empty()
    } else {
        let init = missing_names(vars.drop_last());
        if vars.last().1 {
            init
        } else {
            init.push(vars.last().0@)
        }
    }
}

/// Succeeds when every required variable is set; otherwise reports the
/// names of those that are not, in order. Each element of `vars` is a name
/// and whether the process environment sets it.
pub fn ensure_all_env_vars_are_set(vars: &Vec<(String, bool)>) -> (r: Result<(), ApiError>)
    ensures
        missing_names(vars@).len() == 0 ==> r is Ok,
        missing_names(vars@).len() > 0 ==> (r matches Err(ApiError::MissingEnvVars(names))
            && names@.len() == missing_names(vars@).len() && forall|i: int|
            0 <= i < names@.len() ==> #[trigger] names@[i]@ == missing_names(vars@)[i]),
{
    let mut missing: Vec<String> = Vec::new();
    let n = vars.len();
    let mut i: usize = 0;
    while i < n
        invariant
            n == vars@.len(),
            i <= n,
            missing@.len() == missing_names(vars@.take(i as int)).len(),
            forall|j: int|
                0 <= j < missing@.len() ==> #[trigger] missing@[j]@ == missing_names(
                    vars@.take(i as int),
                )[j],
        decreases n - i,
    {
        assert(vars@.take(i + 1).drop_last() =~= vars@.take(i as int));
        if !vars[i].1 {
            missing.push(vars[i].0.clone());
        }
        i = i + 1;
    }
    assert(vars@.take(n as int) =~= vars@);
    if missing.len() == 0 {
        Ok(())
    } else {
        Err(ApiError::MissingEnvVars(missing))
    }
}

} // verus!
