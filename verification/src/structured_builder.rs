//! Building a record with fields step by step.

use vstd::prelude::*;
use crate::log_context::{first_at, position_of, FieldValue, LogContext};
use crate::log_level::LogLevel;
use crate::logger::{Disposition, Logger};

verus! {

/// A record in the making: a message, fields, and the place in the source.
pub struct StructuredLogBuilder<'a> {
    logger: &'a Logger,
    level: LogLevel,
    message: String,
    context: LogContext,
    file: Option<String>,
    line: Option<u32>,
    module: Option<String>,
}

impl<'a> StructuredLogBuilder<'a> {
    /// The logger that the record will go to.
    pub closed spec fn target(self) -> Logger {
        *self.logger
    }

    /// The severity of the record.
    pub closed spec fn severity(self) -> LogLevel {
        self.level
    }

    /// The message so far.
    pub closed spec fn text(self) -> Seq<char> {
        self.message@
    }

    /// The fields so far.
    pub closed spec fn fields_so_far(self) -> Seq<(String, FieldValue)> {
        self.context.entries()
    }

    /// The line in the source, where it was given.
    pub closed spec fn source_line(self) -> Option<u32> {
        self.line
    }

    /// A builder for a record of the given severity, with an empty message
    /// and no fields.
    pub fn new(logger: &'a Logger, level: LogLevel) -> (r: StructuredLogBuilder<'a>)
        ensures
            r.target() == *logger,
            r.severity() == level,
            r.text().len() == 0,
            r.fields_so_far().len() == 0,
            r.source_line() is None,
    {
        StructuredLogBuilder {
            logger,
            level,
            message: String::new(),
            context: LogContext::new(),
            file: None,
            line: None,
            module: None,
        }
    }

    /// Sets the message.
    pub fn message(self, msg: &str) -> (r: StructuredLogBuilder<'a>)
        ensures
            r.text() == msg@,
            r.target() == self.target(),
            r.severity() == self.severity(),
            r.fields_so_far() == self.fields_so_far(),
            r.source_line() == self.source_line(),
    {
        let mut builder = self;
        builder.message = msg.to_owned();
        builder
    }

    /// Sets a field. A field of that key that is there takes the new value.
    pub fn field(self, key: &str, value: FieldValue) -> (r: StructuredLogBuilder<'a>)
        ensures
            r.target() == self.target(),
            r.severity() == self.severity(),
            r.text() == self.text(),
            r.source_line() == self.source_line(),
            match position_of(self.fields_so_far(), key@) {
                Some(i) => r.fields_so_far().len() == self.fields_so_far().len()
                    && r.fields_so_far()[i].1 == value,
                None => r.fields_so_far().len() == self.fields_so_far().len() + 1
                    && r.fields_so_far().last().1 == value && r.fields_so_far().last().0@
                    == key@,
            },
    {
        let mut builder = self;
        builder.context.add_field(key, value);
        builder
    }

    /// Sets every field of `context`, in its order.
    pub fn fields(self, context: LogContext) -> (r: StructuredLogBuilder<'a>)
        ensures
            r.target() == self.target(),
            r.severity() == self.severity(),
            r.text() == self.text(),
            r.source_line() == self.source_line(),
            forall|i: int|
                0 <= i < context.entries().len() ==> position_of(
                    r.fields_so_far(),
                    (#[trigger] context.entries()[i]).0@,
                ) is Some,
    {
        let mut builder = self;
        let given = context.fields();
        let mut i: usize = 0;
        while i < given.len()
            invariant
                i <= given.len(),
                given@ == context.entries(),
                builder.logger == self.logger,
                builder.level == self.level,
                builder.message == self.message,
                builder.line == self.line,
                forall|j: int|
                    0 <= j < i ==> position_of(
                        builder.context.entries(),
                        (#[trigger] given@[j]).0@,
                    ) is Some,
            decreases given.len() - i,
        {
            let ghost before = builder.context.entries();
            builder.context.add_field(given[i].0.as_str(), given[i].1.clone());
            proof {
                let after = builder.context.entries();
                assert forall|j: int| 0 <= j < i + 1 implies position_of(
                    after,
                    (#[trigger] given@[j]).0@,
                ) is Some by {
                    if j < i {
                        let at = position_of(before, given@[j].0@)->0;
                        assert(first_at(before, given@[j].0@, at));
                        assert(after[at].0@ == given@[j].0@) by {
                            if position_of(before, given@[i as int].0@) == Some(at) {
                            } else if position_of(before, given@[i as int].0@) is Some {
                                assert(after[at] == before[at]);
                            } else {
                                assert(after.drop_last()[at] == before[at]);
                            }
                        }
                        crate::log_context::lemma_has_first(after, given@[j].0@, at);
                    }
                }
            }
            i += 1;
        }
        builder
    }

    /// Sets the place in the source that the record comes from.
    pub fn location(self, file: &str, line: u32, module: &str) -> (r: StructuredLogBuilder<'a>)
        ensures
            r.source_line() == Some(line),
            r.target() == self.target(),
            r.severity() == self.severity(),
            r.text() == self.text(),
            r.fields_so_far() == self.fields_so_far(),
    {
        let mut builder = self;
        builder.file = Some(file.to_owned());
        builder.line = Some(line);
        builder.module = Some(module.to_owned());
        builder
    }

    /// Hands the record to the logger.
    pub fn log(self) -> (r: Disposition)
        ensures
            r is Filtered <==> !self.target().admits(self.severity()),
            self.target().allows(self.severity(), r),
    {
        self.logger.log_with_context(self.level, self.message.as_str(), self.context)
    }
}

impl Logger {
    pub fn trace_builder(&self) -> (r: StructuredLogBuilder<'_>)
        ensures
            r.target() == *self,
            r.severity() == LogLevel::Trace,
            r.text().len() == 0,
            r.fields_so_far().len() == 0,
    {
        StructuredLogBuilder::new(self, LogLevel::Trace)
    }

    pub fn debug_builder(&self) -> (r: StructuredLogBuilder<'_>)
        ensures
            r.target() == *self,
            r.severity() == LogLevel::Debug,
            r.text().len() == 0,
            r.fields_so_far().len() == 0,
    {
        StructuredLogBuilder::new(self, LogLevel::Debug)
    }

    pub fn info_builder(&self) -> (r: StructuredLogBuilder<'_>)
        ensures
            r.target() == *self,
            r.severity() == LogLevel::Info,
            r.text().len() == 0,
            r.fields_so_far().len() == 0,
    {
        StructuredLogBuilder::new(self, LogLevel::Info)
    }

    pub fn warn_builder(&self) -> (r: StructuredLogBuilder<'_>)
        ensures
            r.target() == *self,
            r.severity() == LogLevel::Warn,
            r.text().len() == 0,
            r.fields_so_far().len() == 0,
    {
        StructuredLogBuilder::new(self, LogLevel::Warn)
    }

    pub fn error_builder(&self) -> (r: StructuredLogBuilder<'_>)
        ensures
            r.target() == *self,
            r.severity() == LogLevel::Error,
            r.text().len() == 0,
            r.fields_so_far().len() == 0,
    {
        StructuredLogBuilder::new(self, LogLevel::Error)
    }

    pub fn fatal_builder(&self) -> (r: StructuredLogBuilder<'_>)
        ensures
            r.target() == *self,
            r.severity() == LogLevel::Fatal,
            r.text().len() == 0,
            r.fields_so_far().len() == 0,
    {
        StructuredLogBuilder::new(self, LogLevel::Fatal)
    }
}

} // verus!
