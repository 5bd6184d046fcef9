//! Render-target bookkeeping for a WebGL2-style graphics context.
//!
//! The crate owns the decisions of a framebuffer wrapper: which pixel formats
//! are depth formats, which slot a new attachment goes to, what has to be
//! allocated for it, and which draw buffers a bind declares. The graphics
//! calls themselves are made by the caller, who asks the framebuffer what to
//! allocate and hands it what the allocation gave.

pub mod attachment;
pub mod format;
pub mod framebuffer;

pub use crate::attachment::{
    attachment_request, AttachmentPoint, AttachmentRequest, FramebufferAttachment,
    FramebufferKind,
};
pub use crate::format::{is_depth, TextureInternalFormat};
pub use crate::framebuffer::{Framebuffer, FramebufferBinding};
