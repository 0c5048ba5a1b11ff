use vstd::prelude::*;

verus! {

/// One of the two save layouts that files are converted between.
#[derive(Clone, Copy, Debug, PartialEq, Eq, Structural)]
pub enum Platform {
    WiiU,
    Switch,
}

/// The platform that a save of platform `p` is converted to.
pub open spec fn other(p: Platform) -> Platform {
    match p {
        Platform::WiiU => Platform::Switch,
        Platform::Switch => Platform::WiiU,
    }
}

/// The destination of a conversion whose source is `from`: always the other
/// of the two platforms.
pub fn destination(from: Platform) -> (to: Platform)
    ensures
        to == other(from),
        to != from,
{
    match from {
        Platform::Switch => Platform::WiiU,
        Platform::WiiU => Platform::Switch,
    }
}

/// Converting twice leads back to the platform a save started on.
pub proof fn destination_of_destination(p: Platform)
    ensures
        other(other(p)) == p,
        other(p) != p,
{
}

} // verus!
