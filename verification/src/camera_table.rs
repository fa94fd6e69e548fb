//! Camera output registry and frame assembler.
//!
//! Per-camera bookkeeping for the capture pipeline: each registered camera
//! name owns a dense CPU-side image and the receiving end of its byte
//! channel, index-aligned across three parallel vectors. The assembler runs
//! once per simulation tick, drains each channel non-blockingly, keeps only
//! the most recent payload, strips the device row-padding and materializes
//! the result in place — except during the preroll warm-up, whose ticks
//! drain and discard everything.

use vstd::prelude::*;
use crate::align::{lemma_round_up_properties, round_up, round_up_spec};
use crate::channel::{channel_len, channel_unbounded, try_recv_bytes};
use crate::copy_agent::ImageCopier;
use crate::destripe::{assemble_spec, destripe, destripe_spec};
use crossbeam_channel::{Receiver, Sender};

verus! {

/// The device-imposed minimum byte-stride multiple for rows of a linear
/// copy buffer.
pub const COPY_ROW_ALIGNMENT: usize = 256;

/// How many initial ticks discard captured frames so rendering can
/// stabilize.
pub const DEFAULT_PREROLL: u32 = 40;

/// A dense, host-side image: 8-bit RGBA pixels with no row padding.
pub struct DenseImage {
    pub width: u32,
    pub height: u32,
    pub data: Vec<u8>,
}

impl DenseImage {
    /// The logical byte width of one row: four bytes per pixel.
    pub open spec fn row_bytes(&self) -> int {
        self.width as int * 4
    }

    /// The row stride a device copy uses for this image.
    pub open spec fn aligned_row_bytes(&self) -> int {
        round_up_spec(self.row_bytes(), COPY_ROW_ALIGNMENT as int)
    }

    /// Machine-limit bounds: the padded row stride and the dense pixel
    /// buffer size fit in `usize`.
    pub open spec fn wf(&self) -> bool {
        &&& self.row_bytes() + COPY_ROW_ALIGNMENT <= usize::MAX
        &&& self.row_bytes() * self.height as int <= usize::MAX
    }

    /// A zero-filled dense image, as allocated when a camera slot is
    /// created.
    pub fn new_zeroed(width: u32, height: u32) -> (img: DenseImage)
        requires
            width as int * 4 + COPY_ROW_ALIGNMENT <= usize::MAX,
            width as int * 4 * height as int <= usize::MAX,
        ensures
            img.wf(),
            img.width == width,
            img.height == height,
            img.data@.len() == width as int * 4 * height as int,
            forall|i: int| 0 <= i < img.data@.len() ==> img.data@[i] == 0,
    {
        let total64: u64 = width as u64 * 4 * height as u64;
        let total: usize = total64 as usize;
        let mut data: Vec<u8> = Vec::new();
        let mut i: usize = 0;
        while i < total
            invariant
                i <= total,
                data@.len() == i,
                forall|j: int| 0 <= j < i ==> data@[j] == 0,
            decreases total - i,
        {
            data.push(0u8);
            i = i + 1;
        }
        DenseImage { width, height, data }
    }
}

/// Drains the messages pending on `r` when the call is made and keeps only
/// the most recent one. The drain is bounded by a snapshot of the
/// channel's backlog, so it never blocks and never chases a producer that
/// keeps sending; messages arriving during the drain wait for the next
/// tick.
fn drain_latest(r: &Receiver<Vec<u8>>) -> Option<Vec<u8>> {
    let backlog = channel_len(r);
    let mut last: Option<Vec<u8>> = None;
    let mut i: usize = 0;
    while i < backlog
        decreases backlog - i,
    {
        match try_recv_bytes(r) {
            Some(payload) => {
                last = Some(payload);
            },
            None => {
                return last;
            },
        }
        i = i + 1;
    }
    last
}

/// The relation between a slot's stored dense image before and after one
/// materializing tick that drained the messages `msgs` from the slot's
/// channel: dimensions are kept, and the stored bytes are the destripped
/// last message — or unchanged when nothing was pending.
pub open spec fn slot_assembled(before: DenseImage, after: DenseImage, msgs: Seq<Seq<u8>>) -> bool {
    &&& after.width == before.width
    &&& after.height == before.height
    &&& after.data@ == assemble_spec(
        before.data@,
        msgs,
        before.row_bytes(),
        before.aligned_row_bytes(),
        before.height as int,
    )
}

/// CPU-world registry of every camera's capture output.
pub struct CameraOutputTable {
    pub camera_names: Vec<String>,
    pub images: Vec<DenseImage>,
    pub preroll: u32,
    pub receivers: Vec<Receiver<Vec<u8>>>,
}

impl CameraOutputTable {
    /// The registered camera names, in slot order.
    pub open spec fn names(&self) -> Seq<Seq<char>> {
        self.camera_names@.map_values(|s: String| s@)
    }

    /// Index alignment: the three parallel vectors have the same length,
    /// names are unique, and every stored image respects the machine
    /// limits.
    pub open spec fn wf(&self) -> bool {
        &&& self.images@.len() == self.names().len()
        &&& self.receivers@.len() == self.names().len()
        &&& forall|i: int, j: int|
            0 <= i < j < self.names().len() ==> self.names()[i] != self.names()[j]
        &&& forall|i: int| 0 <= i < self.images@.len() ==> (#[trigger] self.images@[i]).wf()
    }

    /// The slot index registered under `name`, if any.
    fn index_of_camera(&self, name: &String) -> (r: Option<usize>)
        ensures
            match r {
                Some(i) => i < self.names().len() && self.names()[i as int] == name@
                    && forall|j: int| 0 <= j < i ==> self.names()[j] != name@,
                None => forall|j: int| 0 <= j < self.names().len() ==> self.names()[j] != name@,
            },
    {
        let mut i: usize = 0;
        while i < self.camera_names.len()
            invariant
                i <= self.camera_names.len(),
                forall|j: int| 0 <= j < i ==> self.names()[j] != name@,
            decreases self.camera_names.len() - i,
        {
            if self.camera_names[i] == *name {
                assert(self.names()[i as int] == name@);
                return Some(i);
            }
            i = i + 1;
        }
        None
    }

    /// Binds `camera_name` to a fresh channel and the given staging image:
    /// an already registered name has its slot's image and receiver
    /// replaced in place (messages pending on the old channel are lost),
    /// an unknown name is appended as a new slot. Returns the sender end
    /// for the camera's frame copy agent. Index alignment is preserved
    /// either way.
    pub fn link_new_target(&mut self, image: DenseImage, camera_name: String) -> (s: Sender<
        Vec<u8>,
    >)
        requires
            old(self).wf(),
            image.wf(),
        ensures
            final(self).wf(),
            final(self).preroll == old(self).preroll,
            final(self).names().contains(camera_name@),
            old(self).names().contains(camera_name@) ==> {
                &&& final(self).camera_names == old(self).camera_names
                &&& final(self).receivers@.len() == old(self).receivers@.len()
                &&& exists|i: int|
                    0 <= i < old(self).names().len() && old(self).names()[i] == camera_name@
                        && final(self).images@ == old(self).images@.update(i, image) && (forall|
                        j: int,
                    |
                        0 <= j < old(self).receivers@.len() && j != i ==> final(self).receivers@[j]
                            == old(self).receivers@[j])
            },
            !old(self).names().contains(camera_name@) ==> {
                &&& final(self).names() =~= old(self).names().push(camera_name@)
                &&& final(self).images@ == old(self).images@.push(image)
                &&& final(self).receivers@.len() == old(self).receivers@.len() + 1
                &&& forall|j: int|
                    0 <= j < old(self).receivers@.len() ==> final(self).receivers@[j] == old(
                        self,
                    ).receivers@[j]
            },
    {
        let (s, r) = channel_unbounded();
        match self.index_of_camera(&camera_name) {
            Some(i) => {
                proof {
                    assert(old(self).names().contains(camera_name@)) by {
                        assert(old(self).names()[i as int] == camera_name@);
                    }
                }
                self.images[i] = image;
                self.receivers[i] = r;
                proof {
                    assert(self.names().contains(camera_name@)) by {
                        assert(self.names()[i as int] == camera_name@);
                    }
                }
            },
            None => {
                proof {
                    assert(!old(self).names().contains(camera_name@));
                }
                self.camera_names.push(camera_name);
                self.images.push(image);
                self.receivers.push(r);
                proof {
                    assert(self.names() =~= old(self).names().push(camera_name@));
                    assert(self.names().contains(camera_name@)) by {
                        assert(self.names()[self.names().len() - 1] == camera_name@);
                    }
                }
            },
        }
        s
    }

    /// Sets up a camera's capture path: allocates the zero-filled dense
    /// image mirroring the `width`-by-`height` render target, registers it
    /// under `camera_name` (replacing any previous slot of that name), and
    /// returns the frame copy agent bound to the slot's fresh channel. The
    /// agent must be scheduled in the render phase before the camera's
    /// first render.
    pub fn create_render_target(&mut self, camera_name: String, width: u32, height: u32) -> (agent:
        ImageCopier)
        requires
            old(self).wf(),
            width as int * 4 + COPY_ROW_ALIGNMENT <= usize::MAX,
            width as int * 4 * height as int <= usize::MAX,
        ensures
            final(self).wf(),
            final(self).preroll == old(self).preroll,
            final(self).names().contains(camera_name@),
            forall|i: int|
                0 <= i < final(self).names().len() && final(self).names()[i] == camera_name@
                    ==> {
                    let img = #[trigger] final(self).images@[i];
                    &&& img.width == width
                    &&& img.height == height
                    &&& img.data@.len() == width as int * 4 * height as int
                    &&& forall|b: int| 0 <= b < img.data@.len() ==> img.data@[b] == 0
                },
            agent.width == width,
            agent.height == height,
            agent.row_alignment == COPY_ROW_ALIGNMENT,
            !agent.copy_in_flight,
    {
        let staging = DenseImage::new_zeroed(width, height);
        let sender = self.link_new_target(staging, camera_name);
        ImageCopier::new(sender, width, height, COPY_ROW_ALIGNMENT as u32)
    }

    /// One tick of the frame assembler. While the preroll warm-up is
    /// running, every channel is drained and discarded and the counter
    /// falls by one: materialization never occurs. Afterwards each slot
    /// drains its channel non-blockingly and keeps only the last pending
    /// payload, which is destripped into the slot's dense image; a slot
    /// with nothing pending keeps its previous image.
    #[verifier::loop_isolation(false)]
    pub fn update_camera_table(&mut self) -> (batches: Ghost<Seq<Seq<Seq<u8>>>>)
        requires
            old(self).wf(),
        ensures
            final(self).wf(),
            final(self).camera_names == old(self).camera_names,
            final(self).receivers@ == old(self).receivers@,
            final(self).images@.len() == old(self).images@.len(),
            old(self).preroll > 0 ==> {
                &&& final(self).preroll == old(self).preroll - 1
                &&& final(self).images@ == old(self).images@
            },
            old(self).preroll == 0 ==> {
                &&& final(self).preroll == 0
                &&& batches@.len() == old(self).images@.len()
                &&& forall|i: int|
                    0 <= i < old(self).images@.len() ==> slot_assembled(
                        #[trigger] old(self).images@[i],
                        final(self).images@[i],
                        batches@[i],
                    )
            },
    {
        if self.preroll > 0 {
            let mut i: usize = 0;
            while i < self.receivers.len()
                invariant
                    *self == *old(self),
                decreases self.receivers.len() - i,
            {
                let _ = drain_latest(&self.receivers[i]);
                i = i + 1;
            }
            self.preroll = self.preroll - 1;
            Ghost(Seq::empty())
        } else {
            let ghost mut drained: Seq<Seq<Seq<u8>>> = Seq::empty();
            let mut i: usize = 0;
            while i < self.receivers.len()
                invariant
                    i <= self.receivers@.len(),
                    self.camera_names == old(self).camera_names,
                    self.receivers@ == old(self).receivers@,
                    self.preroll == old(self).preroll,
                    self.images@.len() == old(self).images@.len(),
                    drained.len() == i,
                    forall|j: int| i <= j < self.images@.len() ==> self.images@[j] == old(
                        self,
                    ).images@[j],
                    forall|j: int|
                        0 <= j < i ==> slot_assembled(
                            old(self).images@[j],
                            #[trigger] self.images@[j],
                            drained[j],
                        ),
                    forall|j: int| 0 <= j < self.images@.len() ==> (#[trigger] self.images@[j]).wf(),
                decreases self.receivers.len() - i,
            {
                let ghost pre_images = self.images@;
                let ghost pre_drained = drained;
                match drain_latest(&self.receivers[i]) {
                    None => {
                        proof {
                            drained = drained.push(Seq::<Seq<u8>>::empty());
                        }
                    },
                    Some(payload) => {
                        let img_w = self.images[i].width;
                        let img_h = self.images[i].height;
                        let rb: usize = (img_w as usize) * 4;
                        let aligned: usize = match round_up(rb, COPY_ROW_ALIGNMENT) {
                            Some(a) => a,
                            None => {
                                proof {
                                    lemma_round_up_properties(
                                        rb as int,
                                        COPY_ROW_ALIGNMENT as int,
                                    );
                                    assert(false);
                                }
                                rb
                            },
                        };
                        proof {
                            lemma_round_up_properties(rb as int, COPY_ROW_ALIGNMENT as int);
                        }
                        let dense = destripe(&payload, rb, aligned, img_h);
                        let new_img = DenseImage { width: img_w, height: img_h, data: dense };
                        self.images[i] = new_img;
                        proof {
                            drained = drained.push(seq![payload@]);
                            assert(self.images@ == pre_images.update(i as int, new_img));
                        }
                    },
                }
                proof {
                    assert forall|j: int| 0 <= j < i + 1 implies slot_assembled(
                        old(self).images@[j],
                        #[trigger] self.images@[j],
                        drained[j],
                    ) by {
                        if j < i {
                            assert(self.images@[j] == pre_images[j]);
                            assert(drained[j] == pre_drained[j]);
                            assert(slot_assembled(old(self).images@[j], pre_images[j], pre_drained[j]));
                        } else {
                            assert(slot_assembled(old(self).images@[j], self.images@[j], drained[j]));
                        }
                    }
                }
                i = i + 1;
            }
            Ghost(drained)
        }
    }
}

impl Default for CameraOutputTable {
    /// An empty registry with the default preroll warm-up length.
    fn default() -> (t: Self)
        ensures
            t.wf(),
            t.names().len() == 0,
            t.images@.len() == 0,
            t.receivers@.len() == 0,
            t.preroll == DEFAULT_PREROLL,
    {
        let t = CameraOutputTable {
            camera_names: Vec::new(),
            images: Vec::new(),
            preroll: DEFAULT_PREROLL,
            receivers: Vec::new(),
        };
        proof {
            assert(t.names() =~= Seq::<Seq<char>>::empty());
        }
        t
    }
}

/// What one assembler tick does to a single camera slot, over the slot's
/// stored dense bytes: a warm-up tick only decrements the preroll counter,
/// a materializing tick applies last-value-wins assembly to the drained
/// messages.
pub open spec fn tick_slot_spec(
    preroll: nat,
    stored: Seq<u8>,
    msgs: Seq<Seq<u8>>,
    row_bytes: int,
    aligned_row_bytes: int,
    height: int,
) -> (nat, Seq<u8>) {
    if preroll > 0 {
        ((preroll - 1) as nat, stored)
    } else {
        (0nat, assemble_spec(stored, msgs, row_bytes, aligned_row_bytes, height))
    }
}

/// The slot state after a run of consecutive ticks, the `t`-th of which
/// drained the message batch `batches[t]`.
pub open spec fn run_ticks_spec(
    preroll: nat,
    stored: Seq<u8>,
    batches: Seq<Seq<Seq<u8>>>,
    row_bytes: int,
    aligned_row_bytes: int,
    height: int,
) -> (nat, Seq<u8>)
    decreases batches.len(),
{
    if batches.len() == 0 {
        (preroll, stored)
    } else {
        let prev = run_ticks_spec(
            preroll,
            stored,
            batches.drop_last(),
            row_bytes,
            aligned_row_bytes,
            height,
        );
        tick_slot_spec(prev.0, prev.1, batches.last(), row_bytes, aligned_row_bytes, height)
    }
}

/// Preroll gating, first half: during the first `preroll` ticks
/// materialization never occurs — the stored bytes stay untouched whatever
/// was sent — and each tick decrements the counter by one.
pub proof fn lemma_preroll_gates(
    preroll: nat,
    stored: Seq<u8>,
    batches: Seq<Seq<Seq<u8>>>,
    row_bytes: int,
    aligned_row_bytes: int,
    height: int,
)
    requires
        batches.len() <= preroll,
    ensures
        run_ticks_spec(preroll, stored, batches, row_bytes, aligned_row_bytes, height).1 == stored,
        run_ticks_spec(preroll, stored, batches, row_bytes, aligned_row_bytes, height).0 == preroll
            - batches.len(),
    decreases batches.len(),
{
    if batches.len() > 0 {
        lemma_preroll_gates(
            preroll,
            stored,
            batches.drop_last(),
            row_bytes,
            aligned_row_bytes,
            height,
        );
    }
}

/// Index alignment: in a well-formed registry every camera name belongs to
/// exactly one slot, so it maps to exactly one (image, receiver) pair —
/// two slots carrying the same name are the same slot.
pub proof fn lemma_camera_name_maps_to_one_slot(t: &CameraOutputTable, i: int, j: int)
    requires
        t.wf(),
        0 <= i < t.names().len(),
        0 <= j < t.names().len(),
        t.names()[i] == t.names()[j],
    ensures
        i == j,
        t.images@[i] == t.images@[j],
        t.receivers@[i] == t.receivers@[j],
{
    if i != j {
        if i < j {
            assert(t.names()[i] != t.names()[j]);
        } else {
            assert(t.names()[j] != t.names()[i]);
        }
    }
}

/// Preroll gating, second half: from tick `preroll + 1` onward
/// materialization resumes — the first post-warm-up tick that drains at
/// least one message stores the destripped last one.
pub proof fn lemma_preroll_expires(
    preroll: nat,
    stored: Seq<u8>,
    batches: Seq<Seq<Seq<u8>>>,
    row_bytes: int,
    aligned_row_bytes: int,
    height: int,
)
    requires
        batches.len() == preroll + 1,
        batches.last().len() >= 1,
    ensures
        run_ticks_spec(preroll, stored, batches, row_bytes, aligned_row_bytes, height).1
            == destripe_spec(batches.last().last(), row_bytes, aligned_row_bytes, height),
        run_ticks_spec(preroll, stored, batches, row_bytes, aligned_row_bytes, height).0 == 0,
{
    lemma_preroll_gates(
        preroll,
        stored,
        batches.drop_last(),
        row_bytes,
        aligned_row_bytes,
        height,
    );
}

} // verus!
