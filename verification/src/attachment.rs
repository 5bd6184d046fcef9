//! Attachments of a render target: where they go, what backs them, and what
//! has to be allocated for a new one.

use crate::format::TextureInternalFormat;
use glam::UVec2;
use std::rc::Rc;
use vstd::prelude::*;

verus! {

/// `glam::UVec2`, the pixel dimensions of a render target. The crate carries
/// such a value from the framebuffer into its requests and never looks inside.
#[verifier::external_type_specification]
#[verifier::external_body]
pub struct ExUVec2(glam::UVec2);

/// A slot of a render target that storage can be attached to.
#[derive(Clone, Copy, Debug, PartialEq, Eq, Hash)]
pub enum AttachmentPoint {
    /// The color slot with the given draw-buffer index.
    Color(u32),
    /// The depth slot.
    Depth,
    /// The combined depth and stencil slot.
    DepthStencil,
}

/// What backs the attachments of a framebuffer. `P` is the sampling
/// configuration (filtering, wrapping) of a texture.
#[derive(Debug, PartialEq)]
pub enum FramebufferKind<P> {
    /// Textures that can be sampled later.
    Texture2D { properties: P },
    /// Multisample renderbuffers.
    Renderbuffer { sample_count: u32 },
}

impl<P: Copy> Clone for FramebufferKind<P> {
    fn clone(&self) -> (copy: Self)
        ensures
            copy == *self,
    {
        *self
    }
}

impl<P: Copy> Copy for FramebufferKind<P> {

}

/// A shared handle to the storage behind one attachment. `T` is a texture,
/// `R` a renderbuffer; the storage lives as long as its longest holder.
pub enum FramebufferAttachment<T, R> {
    /// A renderbuffer: storage that is drawn to and resolved, never sampled.
    Renderbuffer(Rc<R>),
    /// A texture, which a later pass can sample.
    Texture2D(Rc<T>),
}

/// The storage to allocate for a new attachment, and the slot to attach it to.
#[derive(Debug, PartialEq)]
pub enum AttachmentRequest<P> {
    /// A 2D texture without initial pixel data.
    Texture2D {
        properties: P,
        size: UVec2,
        format: TextureInternalFormat,
        attachment: AttachmentPoint,
    },
    /// A renderbuffer with `sample_count` samples per pixel.
    Renderbuffer {
        sample_count: u32,
        size: UVec2,
        format: TextureInternalFormat,
        attachment: AttachmentPoint,
    },
}

impl<P> AttachmentRequest<P> {
    /// The pixel dimensions of the storage asked for.
    pub open spec fn size(self) -> UVec2 {
        match self {
            AttachmentRequest::Texture2D { size, .. } => size,
            AttachmentRequest::Renderbuffer { size, .. } => size,
        }
    }

    /// The pixel format of the storage asked for.
    pub open spec fn format(self) -> TextureInternalFormat {
        match self {
            AttachmentRequest::Texture2D { format, .. } => format,
            AttachmentRequest::Renderbuffer { format, .. } => format,
        }
    }

    /// The slot that the storage is to be attached to.
    pub open spec fn attachment(self) -> AttachmentPoint {
        match self {
            AttachmentRequest::Texture2D { attachment, .. } => attachment,
            AttachmentRequest::Renderbuffer { attachment, .. } => attachment,
        }
    }

    /// The kind of storage asked for.
    pub open spec fn kind(self) -> FramebufferKind<P> {
        match self {
            AttachmentRequest::Texture2D { properties, .. } => FramebufferKind::Texture2D {
                properties,
            },
            AttachmentRequest::Renderbuffer { sample_count, .. } => FramebufferKind::Renderbuffer {
                sample_count,
            },
        }
    }
}

/// The request that a framebuffer of `kind` and `size` makes for an attachment
/// of `format` at `attachment`.
pub open spec fn spec_attachment_request<P>(
    size: UVec2,
    kind: FramebufferKind<P>,
    format: TextureInternalFormat,
    attachment: AttachmentPoint,
) -> AttachmentRequest<P> {
    match kind {
        FramebufferKind::Texture2D { properties } => AttachmentRequest::Texture2D {
            properties,
            size,
            format,
            attachment,
        },
        FramebufferKind::Renderbuffer { sample_count } => AttachmentRequest::Renderbuffer {
            sample_count,
            size,
            format,
            attachment,
        },
    }
}

/// The slot that an attachment of the depth format `format` goes to: the
/// combined slot for the depth-stencil format, the depth slot otherwise.
pub open spec fn depth_attachment_point(format: TextureInternalFormat) -> AttachmentPoint {
    if format == TextureInternalFormat::DEPTH24_STENCIL8 {
        AttachmentPoint::DepthStencil
    } else {
        AttachmentPoint::Depth
    }
}

/// Chooses texture or renderbuffer storage by `kind`, with the size, format
/// and slot given.
#[verifier::when_used_as_spec(spec_attachment_request)]
pub fn attachment_request<P>(
    size: UVec2,
    kind: FramebufferKind<P>,
    format: TextureInternalFormat,
    attachment: AttachmentPoint,
) -> (request: AttachmentRequest<P>)
    ensures
        request == spec_attachment_request(size, kind, format, attachment),
{
    match kind {
        FramebufferKind::Texture2D { properties } => AttachmentRequest::Texture2D {
            properties,
            size,
            format,
            attachment,
        },
        FramebufferKind::Renderbuffer { sample_count } => AttachmentRequest::Renderbuffer {
            sample_count,
            size,
            format,
            attachment,
        },
    }
}

} // verus!
