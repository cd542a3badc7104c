use vstd::prelude::*;

use crate::client::route::AppRoute;

verus! {

/// The class of the menu entry of `route`: marked `current` when it is the
/// current route.
pub fn menu_item_class(class: &str, route: AppRoute, current: Option<AppRoute>) -> (cl: String)
    ensures
        cl@ == (if current == Some(route) {
            class@ + " current"@
        } else {
            class@
        }),
{
    let cl = String::from_str(class);
    match current {
        Some(r) => if r == route {
            cl.concat(" current")
        } else {
            cl
        },
        None => cl,
    }
}

} // verus!
