use vstd::prelude::*;

verus! {

/// Severity of a log event, from least to most important.
#[derive(PartialEq, Eq, Structural, Clone, Copy, Debug)]
pub enum Level {
    Trace,
    Debug,
    Info,
    Warn,
    Error,
}

/// Exact membership of `level` in `levels`: no threshold is implied.
pub fn contains_level(levels: &Vec<Level>, level: Level) -> (r: bool)
    ensures
        r == levels@.contains(level),
{
    let mut i: usize = 0;
    while i < levels.len()
        invariant
            i <= levels@.len(),
            forall|j: int| 0 <= j < i ==> levels@[j] != level,
        decreases levels@.len() - i,
    {
        if levels[i] == level {
            assert(levels@[i as int] == level);
            return true;
        }
        i = i + 1;
    }
    false
}

} // verus!
