use vstd::prelude::*;

verus! {

/// The values of `rs` when all of them are `Ok`, else the first error among them.
pub open spec fn collect<B, E>(rs: Seq<Result<B, E>>) -> Result<Seq<B>, E>
    decreases rs.len(),
{
    if rs.len() == 0 {
        Ok(Seq::empty())
    } else {
        match collect(rs.drop_last()) {
            Err(e) => Err(e),
            Ok(bs) => match rs.last() {
                Ok(b) => Ok(bs.push(b)),
                Err(e) => Err(e),
            },
        }
    }
}

pub proof fn lemma_collect_step<B, E>(rs: Seq<Result<B, E>>, i: int)
    requires
        0 <= i < rs.len(),
    ensures
        collect(rs.take(i + 1)) == match collect(rs.take(i)) {
            Err(e) => Err(e),
            Ok(bs) => match rs[i] {
                Ok(b) => Ok(bs.push(b)),
                Err(e) => Err(e),
            },
        },
{
    assert(rs.take(i + 1).drop_last() =~= rs.take(i));
}

pub proof fn lemma_collect_err_prefix<B, E>(rs: Seq<Result<B, E>>, i: int)
    requires
        0 <= i <= rs.len(),
        collect(rs.take(i)) is Err,
    ensures
        collect(rs) == collect(rs.take(i)),
    decreases rs.len() - i,
{
    if i == rs.len() {
        assert(rs.take(i) =~= rs);
    } else {
        lemma_collect_step(rs, i);
        lemma_collect_err_prefix(rs, i + 1);
    }
}

pub proof fn lemma_collect_ok<B, E>(rs: Seq<Result<B, E>>)
    requires
        collect(rs) is Ok,
    ensures
        collect(rs)->Ok_0.len() == rs.len(),
        forall|k: int| 0 <= k < rs.len() ==> rs[k] == Ok::<B, E>(#[trigger] collect(rs)->Ok_0[k]),
    decreases rs.len(),
{
    if rs.len() > 0 {
        lemma_collect_ok(rs.drop_last());
        let bs = collect(rs.drop_last())->Ok_0;
        assert forall|k: int| 0 <= k < rs.len() implies rs[k] == Ok::<B, E>(
            #[trigger] collect(rs)->Ok_0[k],
        ) by {
            if k < rs.len() - 1 {
                assert(rs.drop_last()[k] == rs[k]);
            }
        }
    }
}

pub proof fn lemma_collect_all_ok<B, E>(rs: Seq<Result<B, E>>, bs: Seq<B>)
    requires
        bs.len() == rs.len(),
        forall|k: int| 0 <= k < rs.len() ==> rs[k] == Ok::<B, E>(#[trigger] bs[k]),
    ensures
        collect(rs) == Ok::<Seq<B>, E>(bs),
    decreases rs.len(),
{
    if rs.len() > 0 {
        let rs2 = rs.drop_last();
        let bs2 = bs.drop_last();
        assert forall|k: int| 0 <= k < rs2.len() implies rs2[k] == Ok::<B, E>(#[trigger] bs2[k]) by {
            assert(rs[k] == Ok::<B, E>(bs[k]));
        }
        lemma_collect_all_ok(rs2, bs2);
        assert(rs.last() == Ok::<B, E>(bs.last()));
        assert(bs2.push(bs.last()) =~= bs);
    } else {
        assert(bs =~= Seq::<B>::empty());
    }
}

} // verus!
