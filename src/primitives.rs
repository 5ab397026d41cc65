use vstd::prelude::*;

pub mod canvas;
pub mod cube;
pub mod triangle;

verus! {

/// Each item of `items` repeated `times` times in a row, in order.
pub fn repeat_each<T: Copy>(items: &Vec<T>, times: usize) -> (r: Vec<T>)
    requires
        items@.len() * times <= usize::MAX,
    ensures
        r@.len() == items@.len() * times,
        forall|i: int| 0 <= i < r@.len() ==> #[trigger] r@[i] == items@[i / times as int],
{
    let mut r: Vec<T> = Vec::new();
    let mut k: usize = 0;
    while k < items.len()
        invariant
            k <= items@.len(),
            items@.len() * times <= usize::MAX,
            r@.len() == k * times,
            forall|i: int| 0 <= i < r@.len() ==> #[trigger] r@[i] == items@[i / times as int],
        decreases items@.len() - k,
    {
        let ghost base = r@.len();
        assert(k * times + times <= items@.len() * times) by (nonlinear_arith)
            requires
                k < items@.len(),
        ;
        let mut j: usize = 0;
        while j < times
            invariant
                j <= times,
                k < items@.len(),
                base == k * times,
                base + times <= items@.len() * times,
                items@.len() * times <= usize::MAX,
                r@.len() == base + j,
                forall|i: int| 0 <= i < r@.len() ==> #[trigger] r@[i] == items@[i / times as int],
            decreases times - j,
        {
            let ghost pos = r@.len() as int;
            assert(pos / times as int == k) by (nonlinear_arith)
                requires
                    pos == k * times + j,
                    j < times,
            ;
            r.push(items[k]);
            j = j + 1;
        }
        assert((k + 1) * times == k * times + times) by (nonlinear_arith);
        k = k + 1;
    }
    r
}

} // verus!
