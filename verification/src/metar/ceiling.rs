//! The ceiling: the height of the lowest layer of cloud that covers more
//! than half of the sky, or of the vertical visibility into an obscured sky.

use crate::metar::cloud::{CloudCover, CloudLayer};
use crate::metar::value::{Quantity, Value};
use crate::number::Number;
use vstd::prelude::*;

verus! {

/// The ceiling that the cloud layers of a report give.
#[derive(Clone, Copy, Debug, PartialEq, Eq, Structural)]
pub enum Ceiling {
    /// No layer is broken, overcast or obscured.
    Unlimited,
    /// A layer is broken, overcast or obscured, but none of them has a height.
    Indefinite,
    /// The height of the lowest broken, overcast or obscured layer.
    Height(Quantity),
}

impl CloudLayer {
    /// Whether the layer makes a ceiling: it is broken or overcast, or the sky
    /// is obscured.
    pub open spec fn overriding(self) -> bool {
        self.cover == Some(CloudCover::Broken) || self.cover == Some(CloudCover::Overcast)
            || self.cover == Some(CloudCover::VerticalVisibility)
    }

    /// The height of a layer that makes a ceiling, where it is an exact number.
    pub open spec fn base(self) -> Option<Number> {
        match self.height {
            Some(Quantity { value: Value::Exact(x), units: _ }) => if self.overriding() {
                Some(x)
            } else {
                None
            },
            _ => None,
        }
    }
}

/// Whether one of the layers makes a ceiling.
pub open spec fn any_overriding(layers: Seq<CloudLayer>) -> bool {
    exists|i: int| 0 <= i < layers.len() && (#[trigger] layers[i]).overriding()
}

/// The first of the lowest layers that make a ceiling and have a height.
pub open spec fn lowest(layers: Seq<CloudLayer>) -> Option<CloudLayer>
    decreases layers.len(),
{
    if layers.len() == 0 {
        None
    } else {
        let before = lowest(layers.drop_last());
        let last = layers.last();
        match (before, last.base()) {
            (_, None) => before,
            (None, Some(_)) => Some(last),
            (Some(b), Some(x)) => if x.below(b.base()->0) {
                Some(last)
            } else {
                before
            },
        }
    }
}

/// The ceiling of a list of cloud layers: nothing if there are no layers;
/// unlimited if no layer is broken, overcast or obscured; else the height of
/// the lowest such layer that has one; indefinite if none has.
pub open spec fn ceiling_of(layers: Seq<CloudLayer>) -> Option<Ceiling> {
    if layers.len() == 0 {
        None
    } else if !any_overriding(layers) {
        Some(Ceiling::Unlimited)
    } else {
        match lowest(layers) {
            Some(layer) => Some(Ceiling::Height(layer.height->0)),
            None => Some(Ceiling::Indefinite),
        }
    }
}

/// The layer that [`lowest`] picks is one of the layers, makes a ceiling and
/// has a height, and no layer that makes a ceiling is lower.
pub proof fn lemma_lowest_is_minimal(layers: Seq<CloudLayer>)
    requires
        forall|i: int| 0 <= i < layers.len() && (#[trigger] layers[i]).base() is Some ==> layers[i].base()->0.wf(),
    ensures
        lowest(layers) is Some ==> layers.contains(lowest(layers)->0) && lowest(layers)->0.base()
            is Some,
        lowest(layers) is None ==> forall|i: int|
            0 <= i < layers.len() ==> (#[trigger] layers[i]).base() is None,
        lowest(layers) is Some ==> forall|i: int|
            0 <= i < layers.len() && (#[trigger] layers[i]).base() is Some ==> !layers[i].base()->0.below(
                lowest(layers)->0.base()->0,
            ),
    decreases layers.len(),
{
    if layers.len() > 0 {
        let front = layers.drop_last();
        lemma_lowest_is_minimal(front);
        let last = layers.last();
        assert(layers[layers.len() - 1] == last);
        if lowest(front) is Some {
            let b = lowest(front)->0;
            let k = choose|k: int| 0 <= k < front.len() && front[k] == b;
            assert(layers[k] == b);
        }
        if lowest(layers) is Some {
            let m = lowest(layers)->0.base()->0;
            assert forall|i: int|
                0 <= i < layers.len() && (#[trigger] layers[i]).base() is Some implies !layers[i].base()->0.below(
                m,
            ) by {
                let x = layers[i].base()->0;
                if i < front.len() {
                    assert(front[i] == layers[i]);
                    let b = lowest(front)->0.base()->0;
                    if m != b {
                        lemma_below_transitive(m, b, x);
                    }
                }
            }
        } else {
            assert forall|i: int| 0 <= i < layers.len() implies (#[trigger] layers[i]).base()
                is None by {
                if i < front.len() {
                    assert(front[i] == layers[i]);
                }
            }
        }
    }
}

/// If `a` is below `b` and `x` is not below `b`, then `x` is not below `a`.
pub proof fn lemma_below_transitive(a: Number, b: Number, x: Number)
    requires
        a.wf(),
        b.wf(),
        x.wf(),
        a.below(b),
        !x.below(b),
    ensures
        !x.below(a),
{
    let (an, ad) = (a.numerator as int, a.denominator as int);
    let (bn, bd) = (b.numerator as int, b.denominator as int);
    let (xn, xd) = (x.numerator as int, x.denominator as int);
    assert(an * bd < bn * ad);
    assert(xn * bd >= bn * xd);
    assert(xn * ad >= an * xd) by (nonlinear_arith)
        requires
            an * bd < bn * ad,
            xn * bd >= bn * xd,
            ad > 0,
            bd > 0,
            xd > 0,
    ;
}

/// Derives the ceiling from the cloud layers of a report.
pub fn derive_ceiling(clouds: &Vec<CloudLayer>) -> (r: Option<Ceiling>)
    ensures
        r == ceiling_of(clouds@),
{
    if clouds.len() == 0 {
        return None;
    }
    let mut overridden = false;
    let mut best: Option<CloudLayer> = None;
    let mut i: usize = 0;
    while i < clouds.len()
        invariant
            i <= clouds.len(),
            overridden == any_overriding(clouds@.take(i as int)),
            best == lowest(clouds@.take(i as int)),
            best is Some ==> best->0.base() is Some,
        decreases clouds.len() - i,
    {
        let layer = clouds[i];
        proof {
            let now = clouds@.take(i + 1);
            assert(now.drop_last() =~= clouds@.take(i as int));
            assert(now.last() == layer);
            if layer.overriding() {
                assert(now[i as int].overriding());
            }
            if any_overriding(clouds@.take(i as int)) {
                let k = choose|k: int|
                    0 <= k < clouds@.take(i as int).len() && (#[trigger] clouds@.take(
                        i as int,
                    )[k]).overriding();
                assert(now[k].overriding());
            }
            if any_overriding(now) && !layer.overriding() {
                let k = choose|k: int| 0 <= k < now.len() && (#[trigger] now[k]).overriding();
                assert(clouds@.take(i as int)[k].overriding());
            }
        }
        let makes_ceiling = match layer.cover {
            Some(CloudCover::Broken) => true,
            Some(CloudCover::Overcast) => true,
            Some(CloudCover::VerticalVisibility) => true,
            _ => false,
        };
        if makes_ceiling {
            overridden = true;
            match layer.height {
                Some(Quantity { value: Value::Exact(x), units: _ }) => {
                    match best {
                        None => {
                            best = Some(layer);
                        },
                        Some(b) => {
                            match b.height {
                                Some(Quantity { value: Value::Exact(y), units: _ }) => {
                                    if x.less_than(&y) {
                                        best = Some(layer);
                                    }
                                },
                                _ => {},
                            }
                        },
                    }
                },
                _ => {},
            }
        }
        i += 1;
    }
    assert(clouds@.take(clouds@.len() as int) =~= clouds@);
    if !overridden {
        Some(Ceiling::Unlimited)
    } else {
        match best {
            Some(CloudLayer { cover: _, height: Some(height), cloud_type: _ }) => Some(
                Ceiling::Height(height),
            ),
            _ => Some(Ceiling::Indefinite),
        }
    }
}

} // verus!
