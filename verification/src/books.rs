//! All the bookkeeping of one backend, and what destroying a control does
//! to it: every book forgets the control, and nothing else changes.
use crate::backend::{ElevationBook, FlyoutBook, ResourceKeyBook, RichTextBook};
use crate::dialog::{after_destroy, book_wf, DialogBook};
use crate::handlers::{captures, entry_of, HandlerBook};
use crate::revokers::{destroyed, RevokerBook};
use vstd::prelude::*;

verus! {

/// The books of one backend: dialogs (sizes of type `S`), elevations
/// (depths of type `Z`), deferred flyout requests, rich text, resource
/// keys, event revokers, pointer handlers and drag handlers.
pub struct BackendBooks<S, Z> {
    pub dialogs: DialogBook<S>,
    pub elevation: ElevationBook<Z>,
    pub flyouts: FlyoutBook,
    pub rich_text: RichTextBook,
    pub resource_keys: ResourceKeyBook,
    pub revokers: RevokerBook,
    pub pointers: HandlerBook,
    pub drags: HandlerBook,
}

impl<S: Copy, Z: Copy> BackendBooks<S, Z> {
    /// Control `id` is destroyed: every book forgets it. Returns whether
    /// its pointer captures are to be released (it captured on press and
    /// still exists).
    pub fn destroy(&mut self, id: u32, element_exists: bool) -> (release: bool)
        ensures
            release == (element_exists && captures(entry_of(old(self).pointers.entries@, id))),
            book_wf(final(self).dialogs@),
            final(self).dialogs@ == after_destroy(old(self).dialogs@, id),
            final(self).elevation.depth@ == old(self).elevation.depth@.remove(id),
            final(self).elevation.live@ == old(self).elevation.live@.remove(id),
            final(self).flyouts.open_pending@ == old(self).flyouts.open_pending@.remove(id),
            final(self).flyouts.closed_pending@ == old(self).flyouts.closed_pending@.remove(id),
            final(self).rich_text.blocks@ == old(self).rich_text.blocks@.remove(id),
            final(self).resource_keys.keys@ == old(self).resource_keys.keys@.remove(id),
            final(self).revokers@ == destroyed(old(self).revokers@, id),
            final(self).pointers.entries@ == old(self).pointers.entries@.remove(id),
            final(self).drags.entries@ == old(self).drags.entries@.remove(id),
    {
        let release = self.pointers.destroy(id, element_exists);
        self.drags.destroy(id, element_exists);
        self.dialogs.destroy(id);
        self.elevation.destroy(id);
        self.flyouts.destroy(id);
        self.rich_text.destroy(id);
        self.resource_keys.destroy(id);
        self.revokers.destroy(id);
        release
    }
}

} // verus!
