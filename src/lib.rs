//! Interactive terminal prompts: single-select lists, multi-select checkbox
//! menus and a yes/no confirmation, with the decisions and the drawing kept
//! free of I/O.
use vstd::prelude::*;

pub mod checkbox;
pub mod confirm;
pub mod cursor;
pub mod event;
pub mod list;
pub mod render;
pub mod session;

use crate::checkbox::CheckboxPrompt;

verus! {

/// One choice of a prompt: the label shown and the value it stands for.
pub struct OptionStore {
    pub key: String,
    pub value: String,
}

impl OptionStore {
    /// An option with label `key` and value `value`.
    pub fn new(key: String, value: String) -> (r: OptionStore)
        ensures
            r.key@ == key@,
            r.value@ == value@,
    {
        OptionStore { key, value }
    }
}

/// The value of the option at 1-based position `pos`.
pub fn value_at(options: &Vec<OptionStore>, pos: usize) -> (r: String)
    requires
        1 <= pos <= options@.len(),
    ensures
        r@ == options@[pos - 1].value@,
{
    options[pos - 1].value.clone()
}

/// The values of the options whose 1-based positions are in `selected`, in
/// the order of the options.
pub open spec fn values_in(options: Seq<OptionStore>, selected: Set<nat>) -> Seq<Seq<char>>
    decreases options.len(),
{
    if options.len() == 0 {
        Seq::empty()
    } else {
        let rest = values_in(options.drop_last(), selected);
        if selected.contains(options.len()) {
            rest.push(options.last().value@)
        } else {
            rest
        }
    }
}

/// The values of the checked options of a multi-select prompt, in the order
/// of the options.
pub fn selected_values(options: &Vec<OptionStore>, prompt: &CheckboxPrompt) -> (r: Vec<String>)
    requires
        prompt.wf(),
        prompt@.total == options@.len(),
    ensures
        r@.map_values(|s: String| s@) == values_in(options@, prompt@.selected),
{
    let mut r: Vec<String> = Vec::new();
    let mut i: usize = 0;
    while i < options.len()
        invariant
            prompt.wf(),
            prompt@.total == options@.len(),
            i <= options@.len(),
            r@.map_values(|s: String| s@) == values_in(options@.take(i as int), prompt@.selected),
        decreases options@.len() - i,
    {
        let ghost before = r@;
        let ghost opts = options@.take(i + 1);
        assert(opts.drop_last() =~= options@.take(i as int));
        if prompt.is_checked(i + 1) {
            r.push(options[i].value.clone());
            assert(r@.map_values(|s: String| s@) =~= before.map_values(|s: String| s@).push(
                options@[i as int].value@,
            ));
        }
        i += 1;
    }
    assert(options@.take(options@.len() as int) =~= options@);
    r
}

} // verus!
