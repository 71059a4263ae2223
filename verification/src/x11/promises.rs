//! What the shared X11 parts promise.

use vstd::prelude::*;

use crate::x11::{Screens, CURRENT_TIME, NO_WINDOW, REVERT_TO_PARENT, REVERT_TO_POINTER_ROOT};

verus! {

/// The default root is the root window at the number of the default screen, and
/// there is one exactly where the server has a screen of that number.
pub proof fn law_default_root_is_that_of_the_default_screen(screens: Screens, r: Option<u32>)
    requires
        call_ensures(Screens::root, (&screens,), r),
    ensures
        r is Some <==> screens.default_screen < screens.roots@.len(),
        r matches Some(root) ==> root == screens.roots@[screens.default_screen as int],
        screens.default_root() == r,
{
}

/// The numbers of the protocol.
pub proof fn law_protocol_numbers()
    ensures
        NO_WINDOW == 0,
        CURRENT_TIME == 0,
        REVERT_TO_POINTER_ROOT == 1,
        REVERT_TO_PARENT == 2,
{
}

} // verus!
