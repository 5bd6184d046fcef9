//! The framebuffer: a render target with its color attachments, in draw-buffer
//! order, and at most one depth attachment.

use crate::attachment::{
    attachment_request, depth_attachment_point, AttachmentPoint, AttachmentRequest,
    FramebufferAttachment, FramebufferKind,
};
use crate::format::{is_depth_format, TextureInternalFormat};
use glam::UVec2;
use vstd::prelude::*;

verus! {

/// The binding points of a graphics context that a framebuffer can be bound to.
#[allow(non_camel_case_types)]
#[derive(Clone, Copy, Debug, PartialEq, Eq, Hash)]
pub enum FramebufferBinding {
    /// The target of draw calls.
    DRAW_FRAMEBUFFER,
    /// The source of read-backs and blits.
    READ_FRAMEBUFFER,
}

/// A render target of fixed size and kind. `F` is the handle of the
/// render-target object, `T` a texture, `R` a renderbuffer and `P` the
/// sampling configuration of a texture.
///
/// An attachment is added in two steps: the framebuffer says what to allocate
/// and where to attach it (`color_attachment_request`,
/// `depth_attachment_request`), and it is handed what the allocation gave
/// (`create_color_texture`, `create_depth_texture`).
pub struct Framebuffer<F, T, R, P> {
    pub size: UVec2,
    pub kind: FramebufferKind<P>,
    pub framebuffer: F,
    /// The color attachments; the attachment at index `i` is draw buffer `i`.
    pub color: Vec<FramebufferAttachment<T, R>>,
    pub depth: Option<FramebufferAttachment<T, R>>,
}

/// A framebuffer as a mathematical value.
pub struct FramebufferView<F, T, R, P> {
    pub size: UVec2,
    pub kind: FramebufferKind<P>,
    pub framebuffer: F,
    pub color: Seq<FramebufferAttachment<T, R>>,
    pub depth: Option<FramebufferAttachment<T, R>>,
}

impl<F, T, R, P> View for Framebuffer<F, T, R, P> {
    type V = FramebufferView<F, T, R, P>;

    open spec fn view(&self) -> FramebufferView<F, T, R, P> {
        FramebufferView {
            size: self.size,
            kind: self.kind,
            framebuffer: self.framebuffer,
            color: self.color@,
            depth: self.depth,
        }
    }
}

/// The draw buffers of a framebuffer with `count` color attachments: every
/// color slot, in order.
pub open spec fn draw_buffers(count: nat) -> Seq<u32> {
    Seq::new(count, |i: int| i as u32)
}

impl<F, T, R, P> FramebufferView<F, T, R, P> {
    /// Every color slot has an index that fits the graphics interface.
    pub open spec fn wf(self) -> bool {
        self.color.len() <= u32::MAX
    }

    /// The framebuffer right after its creation: nothing attached.
    pub open spec fn empty(framebuffer: F, size: UVec2, kind: FramebufferKind<P>) -> Self {
        FramebufferView { size, kind, framebuffer, color: Seq::empty(), depth: None }
    }

    /// The slot of the next color attachment: the number of those there are.
    pub open spec fn next_color_attachment(self) -> AttachmentPoint {
        AttachmentPoint::Color(self.color.len() as u32)
    }

    /// What to allocate for the next color attachment, of `format`.
    pub open spec fn color_request(self, format: TextureInternalFormat) -> AttachmentRequest<P> {
        attachment_request(self.size, self.kind, format, self.next_color_attachment())
    }

    /// What to allocate for a depth attachment of `format`.
    pub open spec fn depth_request(self, format: TextureInternalFormat) -> AttachmentRequest<P> {
        attachment_request(self.size, self.kind, format, depth_attachment_point(format))
    }

    /// The framebuffer with `attachment` as its last color attachment.
    pub open spec fn with_color(self, attachment: FramebufferAttachment<T, R>) -> Self {
        FramebufferView { color: self.color.push(attachment), ..self }
    }

    /// The framebuffer after `attachments` were added as color attachments,
    /// one by one and first to last.
    pub open spec fn with_colors(self, attachments: Seq<FramebufferAttachment<T, R>>) -> Self
        decreases attachments.len(),
    {
        if attachments.len() == 0 {
            self
        } else {
            self.with_colors(attachments.drop_last()).with_color(attachments.last())
        }
    }

    /// The framebuffer with `attachment` as its depth attachment.
    pub open spec fn with_depth(self, attachment: FramebufferAttachment<T, R>) -> Self {
        FramebufferView { depth: Some(attachment), ..self }
    }

    /// The draw buffers to declare when the framebuffer is bound to `target`:
    /// all color slots for the draw target, nothing to declare for the read
    /// target.
    pub open spec fn bind(self, target: FramebufferBinding) -> Option<Seq<u32>> {
        match target {
            FramebufferBinding::DRAW_FRAMEBUFFER => Some(draw_buffers(self.color.len())),
            FramebufferBinding::READ_FRAMEBUFFER => None,
        }
    }
}

impl<F, T, R, P: Copy> Framebuffer<F, T, R, P> {
    /// A framebuffer around the render-target object `framebuffer`, with
    /// nothing attached yet.
    pub fn new(framebuffer: F, size: UVec2, kind: FramebufferKind<P>) -> (created: Self)
        ensures
            created@ == FramebufferView::<F, T, R, P>::empty(framebuffer, size, kind),
            created@.wf(),
    {
        Framebuffer { size, kind, framebuffer, color: Vec::new(), depth: None }
    }

    /// The draw buffers to declare after binding the render-target object to
    /// `target`. A bind to the draw target declares every color slot anew, so
    /// that attachments added since the last bind are drawn to.
    pub fn bind(&self, target: FramebufferBinding) -> (buffers: Option<Vec<u32>>)
        requires
            self@.wf(),
        ensures
            match buffers {
                Some(list) => self@.bind(target) == Some(list@),
                None => self@.bind(target) is None,
            },
    {
        match target {
            FramebufferBinding::DRAW_FRAMEBUFFER => {
                let count: usize = self.color.len();
                let mut list: Vec<u32> = Vec::new();
                for i in 0..count
                    invariant
                        count <= u32::MAX,
                        list@ == draw_buffers(i as nat),
                {
                    list.push(i as u32);
                    assert(list@ =~= draw_buffers((i + 1) as nat));
                }
                Some(list)
            },
            FramebufferBinding::READ_FRAMEBUFFER => None,
        }
    }

    /// What to allocate and attach for the next color attachment.
    pub fn color_attachment_request(&self, format: TextureInternalFormat) -> (request:
        AttachmentRequest<P>)
        requires
            !is_depth_format(format),
            self@.wf(),
        ensures
            request == self@.color_request(format),
    {
        let attachment = AttachmentPoint::Color(self.color.len() as u32);
        attachment_request(self.size, self.kind, format, attachment)
    }

    /// Takes what the allocation for `color_attachment_request` gave: a new
    /// attachment becomes the last color attachment, a failure is handed on
    /// and changes nothing.
    pub fn create_color_texture(&mut self, created: Result<FramebufferAttachment<T, R>, ()>) -> (result:
        Result<(), ()>)
        requires
            old(self)@.color.len() < u32::MAX,
        ensures
            match created {
                Ok(attachment) => result is Ok && final(self)@ == old(self)@.with_color(attachment),
                Err(_) => result is Err && *final(self) == *old(self),
            },
            final(self)@.wf(),
    {
        match created {
            Ok(attachment) => {
                self.color.push(attachment);
                Ok(())
            },
            Err(_) => Err(()),
        }
    }

    /// What to allocate and attach for a depth attachment.
    pub fn depth_attachment_request(&self, format: TextureInternalFormat) -> (request:
        AttachmentRequest<P>)
        requires
            is_depth_format(format),
        ensures
            request == self@.depth_request(format),
    {
        let attachment = match format {
            TextureInternalFormat::DEPTH24_STENCIL8 => AttachmentPoint::DepthStencil,
            _ => AttachmentPoint::Depth,
        };
        attachment_request(self.size, self.kind, format, attachment)
    }

    /// Takes what the allocation for `depth_attachment_request` gave: a new
    /// attachment replaces the depth attachment, a failure is handed on and
    /// changes nothing.
    ///
    /// The framebuffer lets go of a replaced attachment without detaching it:
    /// its storage is freed once no other holder is left, and where the two
    /// formats go to different slots it stays attached to the earlier one.
    pub fn create_depth_texture(&mut self, created: Result<FramebufferAttachment<T, R>, ()>) -> (result:
        Result<(), ()>)
        ensures
            match created {
                Ok(attachment) => result is Ok && final(self)@ == old(self)@.with_depth(attachment),
                Err(_) => result is Err && *final(self) == *old(self),
            },
    {
        match created {
            Ok(attachment) => {
                self.depth = Some(attachment);
                Ok(())
            },
            Err(_) => Err(()),
        }
    }
}

/// Color attachments are stored in the order in which they were added, behind
/// those that were there before; nothing else of the framebuffer changes.
pub proof fn lemma_colors_appended<F, T, R, P>(
    fb: FramebufferView<F, T, R, P>,
    attachments: Seq<FramebufferAttachment<T, R>>,
)
    ensures
        fb.with_colors(attachments) == (FramebufferView { color: fb.color + attachments, ..fb }),
    decreases attachments.len(),
{
    if attachments.len() == 0 {
        assert(fb.color + attachments =~= fb.color);
    } else {
        lemma_colors_appended(fb, attachments.drop_last());
        assert((fb.color + attachments.drop_last()).push(attachments.last()) =~= fb.color
            + attachments);
    }
}

/// After any number of color attachments were added to a new framebuffer, it
/// holds as many as were added, in the order of the calls; the next one goes
/// to the slot behind them; and a bind to the draw target declares the draw
/// buffers 0, 1, 2 and so on, one for each of them.
pub proof fn lemma_draw_buffers_follow_color_attachments<F, T, R, P>(
    framebuffer: F,
    size: UVec2,
    kind: FramebufferKind<P>,
    attachments: Seq<FramebufferAttachment<T, R>>,
)
    requires
        attachments.len() <= u32::MAX,
    ensures
        ({
            let fb = FramebufferView::<F, T, R, P>::empty(framebuffer, size, kind).with_colors(
                attachments,
            );
            &&& fb.wf()
            &&& fb.color == attachments
            &&& fb.color.len() == attachments.len()
            &&& fb.next_color_attachment() == AttachmentPoint::Color(attachments.len() as u32)
            &&& fb.bind(FramebufferBinding::DRAW_FRAMEBUFFER) matches Some(list)
            &&& list.len() == attachments.len()
            &&& forall|i: int| 0 <= i < list.len() ==> list[i] == i
        }),
{
    let start = FramebufferView::<F, T, R, P>::empty(framebuffer, size, kind);
    lemma_colors_appended(start, attachments);
    assert(start.color + attachments =~= attachments);
}

/// A bind to the read target declares no draw buffers, whatever is attached;
/// a bind to the draw target always declares them.
pub proof fn lemma_only_draw_bind_declares_buffers<F, T, R, P>(
    fb: FramebufferView<F, T, R, P>,
    target: FramebufferBinding,
)
    ensures
        fb.bind(FramebufferBinding::READ_FRAMEBUFFER) is None,
        fb.bind(target) is Some <==> target == FramebufferBinding::DRAW_FRAMEBUFFER,
{
}

/// A second depth attachment takes the place of the first: the framebuffer
/// holds one depth attachment, the second, and its color attachments are as
/// they were.
pub proof fn lemma_depth_attachment_replaced<F, T, R, P>(
    fb: FramebufferView<F, T, R, P>,
    first: FramebufferAttachment<T, R>,
    second: FramebufferAttachment<T, R>,
)
    ensures
        fb.with_depth(first).with_depth(second) == fb.with_depth(second),
        fb.with_depth(first).with_depth(second).depth == Some(second),
        fb.with_depth(first).with_depth(second).color == fb.color,
{
}

/// Every request of a framebuffer asks for storage of the framebuffer's own
/// size and kind, in the format given; a color request goes to a color slot,
/// a depth request to the depth or the depth-stencil slot.
pub proof fn lemma_requests_match_framebuffer<F, T, R, P>(
    fb: FramebufferView<F, T, R, P>,
    format: TextureInternalFormat,
)
    ensures
        fb.color_request(format).size() == fb.size,
        fb.depth_request(format).size() == fb.size,
        fb.color_request(format).format() == format,
        fb.depth_request(format).format() == format,
        fb.color_request(format).kind() == fb.kind,
        fb.depth_request(format).kind() == fb.kind,
        fb.color_request(format).attachment() is Color,
        fb.depth_request(format).attachment() is DepthStencil <==> format
            == TextureInternalFormat::DEPTH24_STENCIL8,
        fb.depth_request(format).attachment() is Depth <==> format
            != TextureInternalFormat::DEPTH24_STENCIL8,
{
}

} // verus!
