//! Fields that a logger adds to every record.

use vstd::prelude::*;
use std::sync::Arc;
use parking_lot::RwLock;
use crate::lock::{lock_write, locked, new_lock, share};
use crate::log_context::{lemma_merged_keeps_entries, merged, FieldValue, LogContext};

verus! {

/// Fields that last: set once, they are added to the records that come
/// after. The context can be shared between threads; what it holds at a given
/// moment is whatever the threads have set by then.
pub struct LoggerContext {
    fields: Arc<RwLock<LogContext>>,
}

impl LoggerContext {
    /// A context without fields.
    pub fn new() -> LoggerContext {
        LoggerContext { fields: Arc::new(new_lock(LogContext::new())) }
    }

    /// Sets a field. A field of that key that is there is overwritten.
    pub fn set(&self, key: &str, value: FieldValue) {
        let mut guard = lock_write(&*self.fields);
        let fields = locked(&mut guard);
        fields.add_field(key, value);
    }

    /// Takes a field out.
    pub fn remove(&self, key: &str) {
        let mut guard = lock_write(&*self.fields);
        let fields = locked(&mut guard);
        fields.remove(key);
    }

    /// Takes every field out.
    pub fn clear(&self) {
        let mut guard = lock_write(&*self.fields);
        let fields = locked(&mut guard);
        fields.clear();
    }

    /// A copy of the fields as they are now.
    pub fn get_fields(&self) -> LogContext {
        let mut guard = lock_write(&*self.fields);
        let fields = locked(&mut guard);
        fields.clone()
    }

    pub fn is_empty(&self) -> bool {
        let mut guard = lock_write(&*self.fields);
        let fields = locked(&mut guard);
        fields.is_empty()
    }

    /// How many fields there are now.
    pub fn len(&self) -> usize {
        let mut guard = lock_write(&*self.fields);
        let fields = locked(&mut guard);
        fields.len()
    }

    /// Adds the fields of this context to the fields of a record. A field
    /// that the record has keeps its place and its value: the record's own
    /// fields come first. Which fields the context holds at that moment is up
    /// to the threads that share it; whatever they are, the record's fields
    /// afterwards are its own with those of the context merged in.
    pub fn merge_into(&self, log_context: &mut LogContext)
        ensures
            exists|defaults: Seq<(String, FieldValue)>|
                final(log_context).entries() == #[trigger] merged(
                    old(log_context).entries(),
                    defaults,
                ),
            old(log_context).entries().len() <= final(log_context).entries().len(),
            final(log_context).entries().take(old(log_context).entries().len() as int) == old(
                log_context,
            ).entries(),
    {
        let mut guard = lock_write(&*self.fields);
        let fields = locked(&mut guard);
        proof {
            lemma_merged_keeps_entries(log_context.entries(), fields.entries());
        }
        let ghost defaults = fields.entries();
        log_context.merge_missing(fields);
        assert(log_context.entries() == merged(old(log_context).entries(), defaults));
    }

    /// A copy of the fields as they are now.
    pub fn to_log_context(&self) -> LogContext {
        self.get_fields()
    }
}

impl Clone for LoggerContext {
    /// One more handle on the same fields.
    fn clone(&self) -> LoggerContext {
        LoggerContext { fields: share(&self.fields) }
    }
}

impl Default for LoggerContext {
    fn default() -> LoggerContext {
        LoggerContext::new()
    }
}

} // verus!
