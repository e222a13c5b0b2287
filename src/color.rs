use vstd::prelude::*;

verus! {

/// An RGBA color.
#[derive(Clone, Copy, PartialEq, Eq, Structural, Debug)]
pub struct Color {
    pub r: u8,
    pub g: u8,
    pub b: u8,
    pub a: u8,
}

impl Color {
    pub fn from_rgba(r: u8, g: u8, b: u8, a: u8) -> (c: Color)
        ensures
            c == (Color { r, g, b, a }),
    {
        Color { r, g, b, a }
    }
}

/// The colors of `palette` that differ from `current`, in palette order.
pub open spec fn others_of(palette: Seq<Color>, current: Color) -> Seq<Color>
    decreases palette.len(),
{
    if palette.len() == 0 {
        Seq::empty()
    } else {
        let rest = others_of(palette.drop_last(), current);
        if palette.last() != current {
            rest.push(palette.last())
        } else {
            rest
        }
    }
}

/// Every color of `others_of(palette, current)` is a color of `palette` other
/// than `current`.
pub proof fn lemma_others_are_other(palette: Seq<Color>, current: Color)
    ensures
        forall|k: int|
            0 <= k < others_of(palette, current).len() ==> {
                &&& others_of(palette, current)[k] != current
                &&& palette.contains(#[trigger] others_of(palette, current)[k])
            },
    decreases palette.len(),
{
    if palette.len() > 0 {
        let init = palette.drop_last();
        lemma_others_are_other(init, current);
        assert forall|k: int| 0 <= k < others_of(palette, current).len() implies palette.contains(
            #[trigger] others_of(palette, current)[k],
        ) by {
            if k < others_of(init, current).len() {
                let c = others_of(init, current)[k];
                let j = choose|j: int| 0 <= j < init.len() && init[j] == c;
                assert(palette[j] == c);
            } else {
                assert(palette[palette.len() - 1] == palette.last());
            }
        }
    }
}

/// `others_of` is empty exactly when every color of the palette is `current`.
pub proof fn lemma_others_empty(palette: Seq<Color>, current: Color)
    ensures
        (others_of(palette, current).len() == 0) == (forall|i: int|
            0 <= i < palette.len() ==> #[trigger] palette[i] == current),
    decreases palette.len(),
{
    if palette.len() > 0 {
        let init = palette.drop_last();
        lemma_others_empty(init, current);
        if others_of(palette, current).len() == 0 {
            assert forall|i: int| 0 <= i < palette.len() implies #[trigger] palette[i] == current by {
                if i < init.len() {
                    assert(init[i] == palette[i]);
                }
            }
        }
    }
}

/// Dropping colors from the end of the palette keeps a prefix of the others.
pub proof fn lemma_others_prefix(palette: Seq<Color>, current: Color, n: int)
    requires
        0 <= n <= palette.len(),
    ensures
        others_of(palette.take(n), current).len() <= others_of(palette, current).len(),
        forall|k: int|
            0 <= k < others_of(palette.take(n), current).len() ==> #[trigger] others_of(
                palette.take(n),
                current,
            )[k] == others_of(palette, current)[k],
    decreases palette.len() - n,
{
    if n < palette.len() {
        lemma_others_prefix(palette, current, n + 1);
        let short = others_of(palette.take(n), current);
        let long = others_of(palette.take(n + 1), current);
        assert(palette.take(n + 1).drop_last() =~= palette.take(n));
        assert forall|k: int| 0 <= k < short.len() implies #[trigger] short[k] == others_of(
            palette,
            current,
        )[k] by {
            assert(short[k] == long[k]);
        }
    } else {
        assert(palette.take(n) =~= palette);
    }
}

/// The number of colors of `palette` that differ from `current`.
pub fn count_others(palette: &Vec<Color>, current: Color) -> (n: usize)
    ensures
        n == others_of(palette@, current).len(),
{
    let mut n: usize = 0;
    let mut i: usize = 0;
    while i < palette.len()
        invariant
            i <= palette.len(),
            n == others_of(palette@.take(i as int), current).len(),
            n <= i,
        decreases palette.len() - i,
    {
        assert(palette@.take(i + 1).drop_last() =~= palette@.take(i as int));
        if palette[i] != current {
            n = n + 1;
        }
        i = i + 1;
    }
    assert(palette@.take(i as int) =~= palette@);
    n
}

/// The color at position `k` among the colors of `palette` that differ from
/// `current`.
pub fn select_other(palette: &Vec<Color>, current: Color, k: usize) -> (c: Color)
    requires
        k < others_of(palette@, current).len(),
    ensures
        c == others_of(palette@, current)[k as int],
{
    let mut seen: usize = 0;
    let mut i: usize = 0;
    while i < palette.len()
        invariant
            i <= palette.len(),
            k < others_of(palette@, current).len(),
            seen == others_of(palette@.take(i as int), current).len(),
            seen <= k,
        decreases palette.len() - i,
    {
        proof {
            assert(palette@.take(i + 1).drop_last() =~= palette@.take(i as int));
            lemma_others_prefix(palette@, current, i + 1);
        }
        if palette[i] != current {
            if seen == k {
                assert(others_of(palette@.take(i + 1), current)[k as int] == palette@[i as int]);
                return palette[i];
            }
            seen = seen + 1;
        }
        i = i + 1;
    }
    proof {
        assert(palette@.take(i as int) =~= palette@);
    }
    palette[0]
}

} // verus!
