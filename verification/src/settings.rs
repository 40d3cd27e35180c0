use vstd::prelude::*;

verus! {

/// Options read, never written, while serializing.
///
/// `pretty` puts a space on each side of `=` and after the `,` between
/// declarations; compact mode omits both. `include_types` controls whether a
/// declaration's type annotation is emitted at all.
#[derive(Debug, Clone, Copy, PartialEq, Eq, Structural)]
pub struct ToStringSettings {
    pub pretty: bool,
    pub include_types: bool,
}

impl Default for ToStringSettings {
    /// Pretty output with type annotations included.
    fn default() -> (r: Self)
        ensures
            r == (ToStringSettings { pretty: true, include_types: true }),
    {
        ToStringSettings { pretty: true, include_types: true }
    }
}

} // verus!
