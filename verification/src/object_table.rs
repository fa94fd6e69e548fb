//! Label/color registry.
//!
//! Bijective mapping between an object class name, a stable integer id, and
//! a unique display color. Entries are created on first sighting of a class
//! name and grow monotonically; index 0 is a reserved "unlabeled" entry with
//! zero alpha, present from the start and never reassigned. Colors are
//! assigned by rejection sampling — draw a random color and redraw while it
//! collides with one already in the table — with a bounded number of draws
//! and a deterministic fallback, so that assignment provably terminates.

use vstd::prelude::*;
use crate::color::{background_color, random_color, Rgba};
use vstd::assert_by_contradiction;
use vstd::set_lib::{lemma_int_range, lemma_len_subset, lemma_map_size, set_int_range};
use vstd::string::StringExecFns;

verus! {

/// How many random draws are attempted before falling back to a
/// deterministic scan of the color space.
pub const MAX_COLOR_DRAWS: usize = 64;

/// The number of distinct fully opaque colors.
pub const OPAQUE_COLOR_SPACE: usize = 0x1000000;

/// The `k`-th fully opaque color, in the deterministic order used when
/// random drawing keeps colliding.
pub closed spec fn candidate_color(k: u32) -> Rgba {
    Rgba { r: (k & 0xff) as u8, g: ((k >> 8) & 0xff) as u8, b: ((k >> 16) & 0xff) as u8, a: 255 }
}

proof fn lemma_candidate_injective(k1: u32, k2: u32)
    requires
        k1 < 0x1000000,
        k2 < 0x1000000,
        candidate_color(k1) == candidate_color(k2),
    ensures
        k1 == k2,
{
    assert((k1 & 0xff) as u8 == (k2 & 0xff) as u8 && ((k1 >> 8) & 0xff) as u8 == ((k2 >> 8)
        & 0xff) as u8 && ((k1 >> 16) & 0xff) as u8 == ((k2 >> 16) & 0xff) as u8 && k1 < 0x1000000
        && k2 < 0x1000000 ==> k1 == k2) by (bit_vector);
}

/// No assigned color matches the `k`-th deterministic candidate.
pub open spec fn candidate_free(colors: Seq<Rgba>, k: u32) -> bool {
    forall|i: int| 0 <= i < colors.len() ==> colors[i] != candidate_color(k)
}

/// Pigeonhole: fewer colors are assigned than there are deterministic
/// candidates, so some candidate is free.
proof fn lemma_free_candidate(colors: Seq<Rgba>)
    requires
        colors.len() + 1 <= 0x1000000,
    ensures
        exists|k: u32| k <= colors.len() && #[trigger] candidate_free(colors, k),
{
    broadcast use vstd::seq_lib::seq_to_set_is_finite;

    let n = colors.len() as int;
    assert_by_contradiction!(
        exists|k: u32| k <= colors.len() && #[trigger] candidate_free(colors, k),
        {
            // Every candidate 0..=n appears in `colors`; build the injective
            // image of the candidate range and compare cardinalities.
            let f = |k: int| candidate_color(k as u32);
            let dom = set_int_range(0, n + 1);
            lemma_int_range(0, n + 1);
            assert(dom.len() == n + 1);
            assert forall|k1: int, k2: int|
                dom.contains(k1) && dom.contains(k2) && #[trigger] f(k1) == #[trigger] f(k2)
                implies k1 == k2 by {
                lemma_candidate_injective(k1 as u32, k2 as u32);
            }
            let image = dom.map(f);
            lemma_map_size(dom, image, f);
            assert(image.len() == n + 1);
            assert forall|c: Rgba| image.contains(c) implies colors.to_set().contains(c) by {
                let k = choose|x: int| dom.contains(x) && c == f(x);
                assert(0 <= k < n + 1);
                assert(!candidate_free(colors, k as u32));
                let i = choose|i: int|
                    !(0 <= i < colors.len() ==> colors[i] != candidate_color(k as u32));
                assert(0 <= i < colors.len() && colors[i] == candidate_color(k as u32));
                assert(colors.contains(colors[i]));
                assert(colors.to_set().contains(colors[i]));
                assert(c == f(k));
                assert(c == colors[i]);
            }
            assert(image.subset_of(colors.to_set()));
            colors.lemma_cardinality_of_set();
            lemma_len_subset(image, colors.to_set());
            assert(image.len() <= colors.to_set().len());
            assert(false);
        }
    );
}

/// Stores all object class names and a unique display color for each.
pub struct SegmentationDataTable {
    class_labels: Vec<String>,
    class_colors: Vec<Rgba>,
}

impl SegmentationDataTable {
    /// The registered class names, in id order.
    pub closed spec fn labels(&self) -> Seq<Seq<char>> {
        self.class_labels@.map_values(|s: String| s@)
    }

    /// The assigned display colors, index-aligned with `labels`.
    pub closed spec fn colors(&self) -> Seq<Rgba> {
        self.class_colors@
    }

    /// Well-formedness: labels and colors are index-aligned and pairwise
    /// distinct, and index 0 is the reserved background entry.
    pub open spec fn wf(&self) -> bool {
        &&& self.labels().len() == self.colors().len()
        &&& self.labels().len() >= 1
        &&& self.colors()[0] == background_color()
        &&& forall|i: int, j: int|
            0 <= i < j < self.labels().len() ==> self.labels()[i] != self.labels()[j]
        &&& forall|i: int, j: int|
            0 <= i < j < self.colors().len() ==> self.colors()[i] != self.colors()[j]
    }

    /// The id of `label` if it has been seen, with the ensures pinning it to
    /// the first (and, for a well-formed table, only) matching index.
    pub fn index_of_label(&self, label: &String) -> (r: Option<usize>)
        ensures
            match r {
                Some(i) => i < self.labels().len() && self.labels()[i as int] == label@
                    && forall|j: int| 0 <= j < i ==> self.labels()[j] != label@,
                None => forall|j: int| 0 <= j < self.labels().len() ==> self.labels()[j] != label@,
            },
    {
        let mut i: usize = 0;
        while i < self.class_labels.len()
            invariant
                i <= self.class_labels.len(),
                forall|j: int| 0 <= j < i ==> self.labels()[j] != label@,
            decreases self.class_labels.len() - i,
        {
            if self.class_labels[i] == *label {
                assert(self.labels()[i as int] == label@);
                return Some(i);
            }
            i = i + 1;
        }
        None
    }

    /// The id already holding `color`, if any.
    pub fn index_of_color(&self, color: &Rgba) -> (r: Option<usize>)
        ensures
            match r {
                Some(i) => i < self.colors().len() && self.colors()[i as int] == *color
                    && forall|j: int| 0 <= j < i ==> self.colors()[j] != *color,
                None => forall|j: int| 0 <= j < self.colors().len() ==> self.colors()[j] != *color,
            },
    {
        let mut i: usize = 0;
        while i < self.class_colors.len()
            invariant
                i <= self.class_colors.len(),
                forall|j: int| 0 <= j < i ==> self.colors()[j] != *color,
            decreases self.class_colors.len() - i,
        {
            if self.class_colors[i] == *color {
                return Some(i);
            }
            i = i + 1;
        }
        None
    }

    /// Draws random colors until one is found that no entry holds yet. The
    /// draws are bounded: after `MAX_COLOR_DRAWS` collisions the method
    /// falls back to a deterministic scan of the opaque color space, which
    /// must find a free color because fewer colors are assigned than there
    /// are candidates. The result is opaque and distinct from every
    /// assigned color, the reserved transparent background entry included.
    #[verifier::loop_isolation(false)]
    pub fn new_color(&self) -> (c: Rgba)
        requires
            self.colors().len() < OPAQUE_COLOR_SPACE,
        ensures
            c.a == 255,
            forall|j: int| 0 <= j < self.colors().len() ==> self.colors()[j] != c,
    {
        let mut attempts: usize = 0;
        while attempts < MAX_COLOR_DRAWS
            decreases MAX_COLOR_DRAWS - attempts,
        {
            let c = random_color();
            if self.index_of_color(&c).is_none() {
                return c;
            }
            attempts = attempts + 1;
        }
        proof {
            lemma_free_candidate(self.colors());
        }
        let n: u32 = self.class_colors.len() as u32;
        let mut k: u32 = 0;
        loop
            invariant
                k <= n,
                forall|m: u32| m < k ==> !#[trigger] candidate_free(self.colors(), m),
            decreases n - k,
        {
            let c = Rgba {
                r: (k & 0xff) as u8,
                g: ((k >> 8) & 0xff) as u8,
                b: ((k >> 16) & 0xff) as u8,
                a: 255,
            };
            proof {
                assert(c == candidate_color(k));
            }
            match self.index_of_color(&c) {
                None => {
                    return c;
                },
                Some(i) => {
                    proof {
                        assert(self.colors()[i as int] == candidate_color(k));
                        assert(!candidate_free(self.colors(), k));
                        if k == n {
                            let k0 = choose|k0: u32|
                                k0 <= self.colors().len() && #[trigger] candidate_free(
                                    self.colors(),
                                    k0,
                                );
                            assert(!candidate_free(self.colors(), k0));
                            assert(false);
                        }
                    }
                },
            }
            k = k + 1;
        }
    }

    /// Returns the id of `label`, registering it first if it is new: the
    /// label is appended together with a freshly drawn unique color, and the
    /// new id is the old length. An existing label leaves the table
    /// unchanged.
    pub fn label_id(&mut self, label: String) -> (id: usize)
        requires
            old(self).wf(),
            old(self).colors().len() < OPAQUE_COLOR_SPACE,
        ensures
            final(self).wf(),
            id < final(self).labels().len(),
            final(self).labels()[id as int] == label@,
            old(self).labels().contains(label@) ==> *final(self) == *old(self),
            !old(self).labels().contains(label@) ==> {
                &&& id == old(self).labels().len()
                &&& final(self).labels() =~= old(self).labels().push(label@)
                &&& final(self).colors().len() == old(self).colors().len() + 1
                &&& forall|j: int|
                    0 <= j < old(self).colors().len() ==> final(self).colors()[j] == old(
                        self,
                    ).colors()[j]
                &&& final(self).colors().last().a == 255
            },
    {
        match self.index_of_label(&label) {
            Some(id) => {
                proof {
                    assert(old(self).labels().contains(label@)) by {
                        assert(old(self).labels()[id as int] == label@);
                    }
                }
                id
            },
            None => {
                proof {
                    assert(!old(self).labels().contains(label@));
                }
                let c = self.new_color();
                self.class_labels.push(label);
                self.class_colors.push(c);
                proof {
                    assert(self.labels() =~= old(self).labels().push(label@));
                }
                self.class_labels.len() - 1
            },
        }
    }

    /// The display color of `label`, registering the label on first
    /// sighting: a known label leaves the table untouched and returns its
    /// stored color, an unknown one is appended together with the fresh
    /// color that is returned. Repeated calls with the same label return
    /// the same color.
    pub fn color_of_object_assertive(&mut self, label: String) -> (c: Rgba)
        requires
            old(self).wf(),
            old(self).colors().len() < OPAQUE_COLOR_SPACE,
        ensures
            final(self).wf(),
            final(self).labels().contains(label@),
            forall|i: int|
                0 <= i < final(self).labels().len() && final(self).labels()[i] == label@
                    ==> final(self).colors()[i] == c,
            old(self).labels().contains(label@) ==> *final(self) == *old(self),
            !old(self).labels().contains(label@) ==> {
                &&& final(self).labels() =~= old(self).labels().push(label@)
                &&& final(self).colors().len() == old(self).colors().len() + 1
                &&& forall|j: int|
                    0 <= j < old(self).colors().len() ==> final(self).colors()[j] == old(
                        self,
                    ).colors()[j]
                &&& final(self).colors().last() == c
                &&& c.a == 255
            },
    {
        let id = self.label_id(label);
        proof {
            assert(self.labels().contains(self.labels()[id as int]));
        }
        self.class_colors[id]
    }
}

impl Default for SegmentationDataTable {
    /// A fresh table holding only the reserved "other" entry with the
    /// transparent background color.
    fn default() -> (t: Self)
        ensures
            t.wf(),
            t.labels() =~= seq!["other"@],
            t.colors() =~= seq![background_color()],
    {
        let mut class_labels: Vec<String> = Vec::new();
        class_labels.push(String::from_str("other"));
        let mut class_colors: Vec<Rgba> = Vec::new();
        class_colors.push(Rgba::background());
        let t = SegmentationDataTable { class_labels, class_colors };
        proof {
            assert(t.labels() =~= seq!["other"@]);
        }
        t
    }
}

/// Label injectivity: in a well-formed table, distinct ids always carry
/// distinct labels and distinct display colors; equivalently, each label and
/// each color belongs to exactly one id.
pub proof fn lemma_label_color_injective(t: &SegmentationDataTable, i: int, j: int)
    requires
        t.wf(),
        0 <= i < t.labels().len(),
        0 <= j < t.labels().len(),
        i != j,
    ensures
        t.labels()[i] != t.labels()[j],
        t.colors()[i] != t.colors()[j],
{
}

} // verus!
