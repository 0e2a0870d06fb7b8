//! DPI read-back snapshot and capability math — pure data.

use vstd::prelude::*;

use super::error::WriteError;

verus! {

/// A sensor resolution that fits HID++'s unsigned 16-bit DPI field.
#[derive(Debug, Clone, Copy, PartialEq, Eq, PartialOrd, Ord, Structural)]
pub struct Dpi(pub u16);

impl Dpi {
    /// The raw DPI value.
    pub open spec fn value(self) -> u16 {
        self.0
    }

    /// Wrap a raw DPI value.
    pub fn new(value: u16) -> (d: Self)
        ensures
            d.value() == value,
    {
        Dpi(value)
    }

    /// The raw DPI value.
    pub fn into_inner(self) -> (v: u16)
        ensures
            v == self.value(),
    {
        self.0
    }
}

/// The raw values of a sequence of DPI settings.
pub open spec fn raw_values(s: Seq<Dpi>) -> Seq<u16> {
    s.map_values(|d: Dpi| d.0)
}

/// Whether `s` is strictly increasing.
pub open spec fn strictly_increasing(s: Seq<u16>) -> bool {
    forall|i: int, j: int| 0 <= i < j < s.len() ==> s[i] < s[j]
}

/// Gap between the supported values at `i + 1` and `i`.
pub open spec fn gap_at(s: Seq<u16>, i: int) -> int {
    s[i + 1] - s[i]
}

/// Distance between two DPI values.
pub open spec fn dpi_distance(a: u16, b: u16) -> int {
    if a >= b { a - b } else { b - a }
}

/// Supported DPI values reported by a device's HID++ AdjustableDpi feature:
/// sorted ascending, duplicate-free and never empty.
#[derive(Debug, PartialEq, Eq)]
pub struct DpiCapabilities {
    values: Vec<Dpi>,
}

impl Clone for DpiCapabilities {
    fn clone(&self) -> (c: Self)
        ensures
            c@ == self@,
    {
        proof { use_type_invariant(self); }
        let values = self.values.clone();
        assert(values@ =~= self.values@);
        DpiCapabilities { values }
    }
}

impl View for DpiCapabilities {
    type V = Seq<u16>;

    /// The supported values in ascending order.
    closed spec fn view(&self) -> Seq<u16> {
        raw_values(self.values@)
    }
}

impl DpiCapabilities {
    /// The stored list is non-empty and strictly increasing.
    #[verifier::type_invariant]
    closed spec fn inv(self) -> bool {
        self.values@.len() > 0 && strictly_increasing(raw_values(self.values@))
    }

    /// Whether the supported list holds the properties every capability set
    /// has; true of every value a program can hold.
    pub open spec fn valid(self) -> bool {
        self@.len() > 0 && strictly_increasing(self@)
    }

    /// Build capabilities from a device-reported DPI list: the distinct values
    /// sorted ascending, or [`WriteError::EmptyDpiList`] when there are none.
    pub fn new(values: Vec<u16>) -> (r: Result<Self, WriteError>)
        ensures
            values@.len() == 0 <==> r is Err,
            r matches Err(e) ==> e is EmptyDpiList,
            r matches Ok(caps) ==> {
                &&& caps.valid()
                &&& forall|v: u16| caps@.contains(v) <==> values@.contains(v)
            },
    {
        let mut sorted: Vec<Dpi> = Vec::new();
        let mut k: usize = 0;
        while k < values.len()
            invariant
                k <= values@.len(),
                strictly_increasing(raw_values(sorted@)),
                forall|v: u16| raw_values(sorted@).contains(v) <==> values@.subrange(0, k as int).contains(v),
            decreases values@.len() - k,
        {
            let x = values[k];
            let ghost before = raw_values(sorted@);
            let mut j: usize = 0;
            while j < sorted.len() && sorted[j].0 < x
                invariant
                    j <= sorted@.len(),
                    before == raw_values(sorted@),
                    forall|i: int| 0 <= i < j ==> before[i] < x,
                decreases sorted@.len() - j,
            {
                j = j + 1;
            }
            if j < sorted.len() && sorted[j].0 == x {
                assert(before[j as int] == x);
            } else {
                sorted.insert(j, Dpi(x));
                proof {
                    let after = raw_values(sorted@);
                    assert(after =~= before.insert(j as int, x));
                    assert forall|a: int, b: int| 0 <= a < b < after.len() implies after[a] < after[b] by {
                        if b < j {
                        } else if a < j && b == j {
                        } else if a < j {
                            assert(after[b] == before[b - 1]);
                            if j < before.len() {
                                assert(before[j as int] > x);
                                assert(before[j as int] <= before[b - 1]);
                            }
                        } else if a == j {
                            assert(after[b] == before[b - 1]);
                            assert(before[j as int] > x);
                            assert(before[j as int] <= before[b - 1]);
                        } else {
                            assert(after[a] == before[a - 1]);
                            assert(after[b] == before[b - 1]);
                        }
                    }
                    assert forall|v: u16| after.contains(v) implies before.contains(v) || v == x by {
                        let i = choose|i: int| 0 <= i < after.len() && after[i] == v;
                        if i < j {
                            assert(before[i] == v);
                        } else if i > j {
                            assert(before[i - 1] == v);
                        }
                    }
                    assert(after[j as int] == x);
                    assert forall|v: u16| before.contains(v) implies after.contains(v) by {
                        let i = choose|i: int| 0 <= i < before.len() && before[i] == v;
                        if i < j {
                            assert(after[i] == v);
                        } else {
                            assert(after[i + 1] == v);
                        }
                    }
                }
            }
            proof {
                let pre = values@.subrange(0, k as int);
                let post = values@.subrange(0, k + 1);
                assert(post =~= pre.push(x));
                assert forall|v: u16| post.contains(v) <==> pre.contains(v) || v == x by {
                    if post.contains(v) {
                        let i = choose|i: int| 0 <= i < post.len() && post[i] == v;
                        if i < pre.len() {
                            assert(pre[i] == v);
                        }
                    }
                    if pre.contains(v) {
                        let i = choose|i: int| 0 <= i < pre.len() && pre[i] == v;
                        assert(post[i] == v);
                    }
                    if v == x {
                        assert(post[k as int] == v);
                    }
                }
            }
            k = k + 1;
        }
        assert(values@.subrange(0, values@.len() as int) =~= values@);
        assert(raw_values(sorted@).len() == sorted@.len());
        if sorted.len() == 0 {
            proof {
                if values@.len() > 0 {
                    assert(values@.contains(values@[0]));
                    assert(raw_values(sorted@).contains(values@[0]));
                }
            }
            return Err(WriteError::EmptyDpiList);
        }
        proof {
            if values@.len() == 0 {
                let t = raw_values(sorted@);
                assert(t.contains(t[0]));
            }
        }
        Ok(DpiCapabilities { values: sorted })
    }

    /// All supported DPI values, sorted ascending.
    pub fn values(&self) -> (v: &[Dpi])
        ensures
            raw_values(v@) == self@,
            self.valid(),
    {
        proof { use_type_invariant(self); }
        self.values.as_slice()
    }

    /// Minimum supported DPI.
    pub fn min(&self) -> (d: Dpi)
        ensures
            d.value() == self@[0],
            forall|i: int| 0 <= i < self@.len() ==> d.value() <= self@[i],
    {
        proof {
            use_type_invariant(self);
            assert(self@[0] == self.values@[0].0);
        }
        self.values[0]
    }

    /// Maximum supported DPI.
    pub fn max(&self) -> (d: Dpi)
        ensures
            d.value() == self@.last(),
            forall|i: int| 0 <= i < self@.len() ==> self@[i] <= d.value(),
    {
        proof {
            use_type_invariant(self);
            assert(self@.last() == self.values@.last().0);
        }
        self.values[self.values.len() - 1]
    }

    /// The number of supported values below `dpi`, which is also the index
    /// `dpi` has or would be inserted at.
    fn lower_bound(&self, dpi: u16) -> (i: usize)
        ensures
            i <= self@.len(),
            forall|j: int| 0 <= j < i ==> self@[j] < dpi,
            forall|j: int| i <= j < self@.len() ==> self@[j] >= dpi,
    {
        proof { use_type_invariant(self); }
        let mut i: usize = 0;
        while i < self.values.len() && self.values[i].0 < dpi
            invariant
                i <= self@.len(),
                self.values@.len() == self@.len(),
                strictly_increasing(self@),
                forall|j: int| 0 <= j < i ==> self@[j] < dpi,
            decreases self@.len() - i,
        {
            assert(self@[i as int] == self.values@[i as int].0);
            i = i + 1;
        }
        proof {
            if i < self@.len() {
                assert(self@[i as int] == self.values@[i as int].0);
            }
        }
        i
    }

    /// Whether `dpi` is exactly supported by the device.
    pub fn contains(&self, dpi: Dpi) -> (b: bool)
        ensures
            b == self@.contains(dpi.value()),
    {
        let i = self.lower_bound(dpi.0);
        let found = i < self.values.len() && self.values[i].0 == dpi.0;
        proof {
            if i < self@.len() {
                assert(self@[i as int] == self.values@[i as int].0);
            }
            if self@.contains(dpi.value()) {
                let j = choose|j: int| 0 <= j < self@.len() && self@[j] == dpi.value();
                assert(j >= i);
                use_type_invariant(self);
                if j > i {
                    assert(self@[i as int] < self@[j]);
                }
            }
        }
        found
    }

    /// The supported DPI nearest to `dpi`; on a tie, the smaller one.
    pub fn nearest(&self, dpi: Dpi) -> (d: Dpi)
        ensures
            exists|k: int| #![auto] 0 <= k < self@.len() && self@[k] == d.value()
                && (forall|j: int| 0 <= j < k ==> dpi_distance(self@[j], dpi.value()) > dpi_distance(d.value(), dpi.value())),
            forall|j: int| 0 <= j < self@.len() ==> dpi_distance(self@[j], dpi.value()) >= dpi_distance(d.value(), dpi.value()),
    {
        proof { use_type_invariant(self); }
        let raw = dpi.0;
        let mut nearest = self.values[0];
        assert(self@[0] == self.values@[0].0);
        let mut best_delta: u16 = if nearest.0 >= raw { nearest.0 - raw } else { raw - nearest.0 };
        let ghost mut best_k: int = 0;
        let mut i: usize = 1;
        while i < self.values.len()
            invariant
                1 <= i <= self@.len(),
                self.values@.len() == self@.len(),
                0 <= best_k < i,
                self@[best_k] == nearest.value(),
                best_delta == dpi_distance(nearest.value(), raw),
                forall|j: int| 0 <= j < best_k ==> dpi_distance(self@[j], raw) > best_delta,
                forall|j: int| 0 <= j < i ==> dpi_distance(self@[j], raw) >= best_delta,
            decreases self@.len() - i,
        {
            let candidate = self.values[i];
            assert(self@[i as int] == candidate.0);
            let delta: u16 = if candidate.0 >= raw { candidate.0 - raw } else { raw - candidate.0 };
            if delta < best_delta {
                nearest = candidate;
                best_delta = delta;
                proof { best_k = i as int; }
            }
            i = i + 1;
        }
        nearest
    }

    /// Best-effort step size for UI widgets: the smallest gap between
    /// adjacent supported values, or 1 when there is only one value.
    pub fn step_hint(&self) -> (d: Dpi)
        ensures
            self@.len() < 2 ==> d.value() == 1,
            self@.len() >= 2 ==> {
                &&& exists|i: int| 0 <= i < self@.len() - 1 && d.value() == #[trigger] gap_at(self@, i)
                &&& forall|i: int| 0 <= i < self@.len() - 1 ==> d.value() <= #[trigger] gap_at(self@, i)
            },
    {
        proof { use_type_invariant(self); }
        let n = self.values.len();
        if n < 2 {
            return Dpi(1);
        }
        assert(self@[0] == self.values@[0].0);
        assert(self@[1] == self.values@[1].0);
        let mut best: u16 = self.values[1].0 - self.values[0].0;
        let ghost mut best_i: int = 0;
        let mut i: usize = 1;
        while i + 1 < n
            invariant
                1 <= i < n,
                n == self@.len(),
                self.values@.len() == n,
                strictly_increasing(self@),
                0 <= best_i < i,
                best == gap_at(self@, best_i),
                forall|j: int| 0 <= j < i ==> best <= #[trigger] gap_at(self@, j),
            decreases n - i,
        {
            assert(self@[i as int] == self.values@[i as int].0);
            assert(self@[i + 1] == self.values@[i + 1].0);
            let gap = self.values[i + 1].0 - self.values[i].0;
            if gap < best {
                best = gap;
                proof { best_i = i as int; }
            }
            i = i + 1;
        }
        Dpi(best)
    }

    /// A supported value different from `current`, for diagnostic write
    /// tests: the next value when `current` is supported (the previous one
    /// when it is the maximum), else the smallest value above `current`, else
    /// the maximum.
    pub fn adjacent_test_target(&self, current: Dpi) -> (t: Option<Dpi>)
        ensures
            self@.len() < 2 ==> t is None,
            self@.len() >= 2 ==> t is Some,
            t matches Some(d) ==> {
                let s = self@;
                let c = current.value();
                &&& d.value() != c
                &&& forall|i: int| 0 <= i < s.len() && #[trigger] s[i] == c ==> {
                    &&& i + 1 < s.len() ==> d.value() == s[i + 1]
                    &&& i + 1 == s.len() ==> d.value() == s[i - 1]
                }
                &&& !s.contains(c) ==> {
                    &&& (exists|i: int| 0 <= i < s.len() && s[i] > c) ==> {
                        &&& s.contains(d.value())
                        &&& d.value() > c
                        &&& forall|i: int| 0 <= i < s.len() && s[i] > c ==> d.value() <= s[i]
                    }
                    &&& (forall|i: int| 0 <= i < s.len() ==> s[i] < c) ==> d.value() == s.last()
                }
            },
    {
        proof { use_type_invariant(self); }
        let n = self.values.len();
        if n < 2 {
            return None;
        }
        let i = self.lower_bound(current.0);
        let exact = i < n && self.values[i].0 == current.0;
        let ti: usize = if exact {
            if i + 1 < n { i + 1 } else { i - 1 }
        } else if i < n {
            i
        } else {
            n - 1
        };
        let target = self.values[ti];
        proof {
            let s = self@;
            let c = current.value();
            assert(s[ti as int] == target.0);
            if i < n {
                assert(s[i as int] == self.values@[i as int].0);
            }
            assert forall|k: int| 0 <= k < s.len() && s[k] == c implies k == i by {
                if k < i {
                    assert(s[k] < c);
                } else if k > i {
                    assert(s[i as int] < s[k]);
                }
            }
            if exact {
                assert(s[ti as int] != s[i as int]);
            } else {
                assert(!s.contains(c));
                assert(s.contains(s[ti as int]));
            }
        }
        if target.0 == current.0 {
            None
        } else {
            Some(target)
        }
    }
}

/// Current DPI plus the supported values reported by the device.
#[derive(Debug, Clone, PartialEq, Eq)]
pub struct DpiInfo {
    /// DPI currently configured on sensor 0.
    pub current: Dpi,
    /// Supported values reported by the device for sensor 0.
    pub capabilities: DpiCapabilities,
}

} // verus!
