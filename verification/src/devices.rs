use vstd::prelude::*;

verus! {

/// True when `picked` lists, in increasing order and each once, exactly the
/// positions of `names` that hold `wanted`.
pub open spec fn is_selection(names: Seq<Seq<char>>, wanted: Seq<char>, picked: Seq<usize>) -> bool {
    &&& forall|k: int| 0 <= k < picked.len() ==> #[trigger] picked[k] < names.len()
    &&& forall|k: int| 0 <= k < picked.len() ==> names[#[trigger] picked[k] as int] == wanted
    &&& forall|k: int, l: int| 0 <= k < l < picked.len() ==> picked[k] < picked[l]
    &&& forall|i: int| 0 <= i < names.len() && #[trigger] names[i] == wanted ==> picked.contains(i as usize)
}

/// The positions of the output devices whose name is `wanted`, in the order
/// in which the devices were listed. Each of them is switched to in turn.
pub fn select_devices(names: &Vec<String>, wanted: &String) -> (picked: Vec<usize>)
    ensures
        is_selection(names.deep_view(), wanted@, picked@),
{
    let mut picked: Vec<usize> = Vec::new();
    let n = names.len();
    for i in 0..n
        invariant
            n == names.len(),
            forall|k: int| 0 <= k < picked.len() ==> #[trigger] picked@[k] < i,
            forall|k: int| 0 <= k < picked.len() ==> names.deep_view()[#[trigger] picked@[k] as int] == wanted@,
            forall|k: int, l: int| 0 <= k < l < picked.len() ==> picked@[k] < picked@[l],
            forall|j: int| 0 <= j < i && names.deep_view()[j] == wanted@ ==> #[trigger] picked@.contains(j as usize),
    {
        if names[i] == *wanted {
            let ghost before = picked@;
            picked.push(i);
            assert forall|j: int| 0 <= j < i && names.deep_view()[j] == wanted@ implies #[trigger] picked@.contains(j as usize) by {
                if j == i {
                    assert(picked@[picked.len() - 1] == i);
                } else {
                    assert(before.contains(j as usize));
                    let k = choose|k: int| 0 <= k < before.len() && before[k] == j as usize;
                    assert(picked@[k] == j as usize);
                }
            }
            assert(picked@[picked.len() - 1] == i);
        }
    }
    picked
}

} // verus!
