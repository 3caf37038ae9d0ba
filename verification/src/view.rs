use vstd::prelude::*;

verus! {

/// The top-level screens of the dashboard, in navigation order.
#[derive(Debug, Clone, Copy, PartialEq, Eq, Structural)]
pub enum View {
    Docker,
    System,
    Network,
    Help,
}

/// The view that follows `v` in the cycle Docker, System, Network, Help.
pub open spec fn view_after(v: View) -> View {
    match v {
        View::Docker => View::System,
        View::System => View::Network,
        View::Network => View::Help,
        View::Help => View::Docker,
    }
}

/// The view that precedes `v` in the cycle Docker, System, Network, Help.
pub open spec fn view_before(v: View) -> View {
    match v {
        View::Docker => View::Help,
        View::System => View::Docker,
        View::Network => View::System,
        View::Help => View::Network,
    }
}

/// Position of a view in the navigation cycle.
pub open spec fn view_index(v: View) -> int {
    match v {
        View::Docker => 0,
        View::System => 1,
        View::Network => 2,
        View::Help => 3,
    }
}

impl View {
    /// The view after this one in the cycle Docker, System, Network, Help.
    pub fn next(self) -> (r: View)
        ensures
            r == view_after(self),
    {
        match self {
            View::Docker => View::System,
            View::System => View::Network,
            View::Network => View::Help,
            View::Help => View::Docker,
        }
    }

    /// The view before this one in the cycle Docker, System, Network, Help.
    pub fn prev(self) -> (r: View)
        ensures
            r == view_before(self),
    {
        match self {
            View::Docker => View::Help,
            View::System => View::Docker,
            View::Network => View::System,
            View::Help => View::Network,
        }
    }
}

/// Law: going to the previous view undoes going to the next one, and the other
/// way round.
pub proof fn law_view_next_prev_inverse(v: View)
    ensures
        view_before(view_after(v)) == v,
        view_after(view_before(v)) == v,
{
}

/// Law: the views form one cycle of four; each step moves one position on.
pub proof fn law_view_cycle(v: View)
    ensures
        view_index(view_after(v)) == (view_index(v) + 1) % 4,
        view_index(view_before(v)) == (view_index(v) + 3) % 4,
        view_after(view_after(view_after(view_after(v)))) == v,
        view_after(v) != v,
{
}

} // verus!
