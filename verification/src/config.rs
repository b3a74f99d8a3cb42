//! Configuration of one process run and what follows from it for tracing.

use vstd::prelude::*;

verus! {

/// Port the service listens on when neither a flag nor the environment names one.
pub const DEFAULT_PORT: usize = 8080;

/// How trace events are rendered once the pipeline is installed.
#[derive(Clone, Copy, Debug, PartialEq, Eq, Structural)]
pub enum TraceStyle {
    /// One structured line per event.
    Flat,
    /// Indented, hierarchical rendering that groups events under their spans.
    Forest,
}

/// Severity of a trace event, from the most to the least severe.
#[derive(Clone, Copy, Debug, PartialEq, Eq, Structural)]
pub enum Severity {
    Error,
    Warn,
    Info,
    Debug,
    Trace,
}

/// What the trace pipeline is installed with.
#[derive(Clone, Copy, Debug, PartialEq, Eq, Structural)]
pub struct TraceSetup {
    /// Least severe level that is still emitted, unless the environment overrides the filter.
    pub default_level: Severity,
    /// The one renderer that is attached.
    pub style: TraceStyle,
}

/// Configuration of one process run.
#[derive(Clone, Copy, Debug, PartialEq, Eq, Structural)]
pub struct Args {
    /// Selects the hierarchical trace rendering.
    pub pretty_traces: bool,
    /// Port to listen on.
    pub port: usize,
}

impl Args {
    /// The trace setup that this configuration selects.
    pub open spec fn spec_trace_setup(self) -> TraceSetup {
        TraceSetup {
            default_level: Severity::Info,
            style: if self.pretty_traces {
                TraceStyle::Forest
            } else {
                TraceStyle::Flat
            },
        }
    }

    /// Chooses the renderer and the default filter level for the trace pipeline.
    ///
    /// The filter lets informational events and anything more severe through.
    /// Exactly one of the two renderers is selected, by `pretty_traces`.
    pub fn trace_setup(&self) -> (setup: TraceSetup)
        ensures
            setup == self.spec_trace_setup(),
    {
        let style = if self.pretty_traces {
            TraceStyle::Forest
        } else {
            TraceStyle::Flat
        };
        TraceSetup { default_level: Severity::Info, style }
    }
}

impl Default for Args {
    /// The configuration of a run that was given no flag and no environment value.
    fn default() -> (args: Args)
        ensures
            args == (Args { pretty_traces: false, port: DEFAULT_PORT }),
    {
        Args { pretty_traces: false, port: DEFAULT_PORT }
    }
}

} // verus!
