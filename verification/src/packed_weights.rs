//! Which packed weights are opened beside a model.

use vstd::prelude::*;

verus! {

/// Whether `model` is what comes of opening `path`: one that does not open is left aside.
pub open spec fn opened_from<P, M, O: FnOnce(P) -> Result<M, String>>(
    path: P,
    open: O,
    model: Option<M>,
) -> bool {
    exists|opened: Result<M, String>| #[trigger]
        call_ensures(open, (path,), opened) && model == (match opened {
            Ok(packed) => Some(packed),
            Err(_) => None,
        })
}

fn open_if_possible<P, M, O: FnOnce(P) -> Result<M, String>>(path: P, open: O) -> (model: Option<M>)
    requires
        call_requires(open, (path,)),
    ensures
        opened_from(path, open, model),
{
    let opened = open(path);
    match opened {
        Ok(packed) => Some(packed),
        Err(_) => None,
    }
}

/// Opens a sidecar that was asked for, unless the model's own weights are forced.
pub fn open_sidecar_v3_packed_model<P, M, O: FnOnce(P) -> Result<M, String>>(
    force_gguf: bool,
    sidecar_path: P,
    open: O,
) -> (model: Option<M>)
    requires
        call_requires(open, (sidecar_path,)),
    ensures
        if force_gguf {
            model is None
        } else {
            opened_from(sidecar_path, open, model)
        },
{
    if force_gguf {
        return None;
    }
    open_if_possible(sidecar_path, open)
}

/// Opens a model's shadow weights, if they are requested and there are any.
pub fn open_shadow_model<
    P,
    M,
    E: FnOnce(&P) -> bool,
    O: FnOnce(P) -> Result<M, String>,
>(requested: bool, shadow_path: P, exists_at: E, open: O) -> (model: Option<M>)
    requires
        call_requires(exists_at, (&shadow_path,)),
        call_requires(open, (shadow_path,)),
    ensures
        if !requested {
            model is None
        } else {
            exists|found: bool| #[trigger]
                call_ensures(exists_at, (&shadow_path,), found) && if found {
                    opened_from(shadow_path, open, model)
                } else {
                    model is None
                }
        },
{
    if !requested {
        return None;
    }
    let found: bool = exists_at(&shadow_path);
    if !found {
        return None;
    }
    open_if_possible(shadow_path, open)
}

/// A model is there exactly if its path opens, and is then what was opened.
pub proof fn law_a_model_is_what_its_path_opens<P, M, O: FnOnce(P) -> Result<M, String>>(
    path: P,
    open: O,
    model: Option<M>,
)
    requires
        opened_from(path, open, model),
    ensures
        model matches Some(packed) ==> call_ensures(open, (path,), Ok::<M, String>(packed)),
        model is None ==> exists|cause: String|
            #![trigger call_ensures(open, (path,), Err::<M, String>(cause))]
            call_ensures(open, (path,), Err::<M, String>(cause)),
{
    let opened = choose|opened: Result<M, String>| #[trigger]
        call_ensures(open, (path,), opened) && model == (match opened {
            Ok(packed) => Some(packed),
            Err(_) => None,
        });
    if let Err(cause) = opened {
        assert(call_ensures(open, (path,), Err::<M, String>(cause)));
    }
}

} // verus!
