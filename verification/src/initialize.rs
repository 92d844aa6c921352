use vstd::prelude::*;

use crate::config::Config;

verus! {

/// The call context of the one-time administrative bootstrap: the admin and
/// the singleton configuration slot.
pub struct Initialize {
    /// Address of the administrator performing the bootstrap.
    pub admin: u64,
    /// The singleton configuration record; `None` until the bootstrap runs.
    pub config: Option<Config>,
}

impl Initialize {
    /// Writes the singleton configuration record once.
    ///
    /// Bootstrap is one-time by construction: allocating the well-known
    /// record fails outside this library when it already exists, so the call
    /// requires an empty slot.
    pub fn initialize(&mut self, bump: u8)
        requires
            old(self).config is None,
        ensures
            final(self).config == Some(Config { admin: old(self).admin, bump }),
            final(self).admin == old(self).admin,
    {
        self.config = Some(Config { admin: self.admin, bump });
    }
}

} // verus!
