//! A host runtime for plugins that rewrite requests in isolation.
//!
//! A plugin never touches host memory. It is handed an opaque handle to a
//! request that the host keeps in an arena, and reaches the request only
//! through a small set of validated accessors. Every request that is handed
//! out is taken back when the call ends, whatever the plugin reported.

pub mod request;
pub mod grammar;
pub mod arena;
pub mod surface;
pub mod registry;
pub mod pipeline;
pub mod component;

pub use arena::{ArenaFull, ArenaView, HandleError, RequestArena, RequestHandle};
pub use component::Component;
pub use grammar::ValidationError;
pub use pipeline::{Action, Call, Event, Failure, Phase, Runtime, RuntimeError, RuntimeView};
pub use registry::{
    InstanceRegistry, Interface, LoadAction, LoadError, LoadStep, Loader, NotFoundError, Router,
};
pub use request::{HostRequestState, RequestView};
pub use surface::{ComponentRunStates, SurfaceError};
