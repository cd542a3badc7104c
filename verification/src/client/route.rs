use vstd::prelude::*;

verus! {

/// The pages of the web client.
#[derive(Clone, Copy, Debug, PartialEq, Eq, Structural)]
pub enum AppRoute {
    Scans,
    CashOuts,
    DashBoard,
    Login,
    Index,
}

} // verus!
