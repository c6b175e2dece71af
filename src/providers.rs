use vstd::prelude::*;

use crate::error::{MlError, MlResult};
use crate::runtime::ExecutionProviderPolicy;
use crate::text::join;

verus! {

/// The platform the sessions run on, as far as provider choice is concerned.
#[derive(Clone, Copy, Debug, PartialEq, Eq, Structural)]
pub enum Platform {
    Apple,
    Android,
    Other,
}

/// An execution provider a session can be built with.
#[derive(Clone, Copy, Debug, PartialEq, Eq, Structural)]
pub enum ExecutionProvider {
    /// CoreML, the Apple platform accelerator.
    CoreMl,
    /// NNAPI, the Android platform accelerator, with its own CPU fallback disabled.
    Nnapi,
    /// XNNPACK, the portable CPU accelerator.
    Xnnpack,
    /// The plain CPU provider with an arena allocator.
    Cpu,
}

/// Providers in the order they are offered to a session: platform accelerator,
/// then, when CPU fallback is allowed, XNNPACK (if asked for and included) and
/// the plain CPU provider.
pub open spec fn provider_list(
    policy: ExecutionProviderPolicy,
    include_xnnpack: bool,
    platform: Platform,
) -> Seq<ExecutionProvider> {
    let accelerator = if platform == Platform::Apple && policy.prefer_coreml {
        seq![ExecutionProvider::CoreMl]
    } else if platform == Platform::Android && policy.prefer_nnapi {
        seq![ExecutionProvider::Nnapi]
    } else {
        Seq::empty()
    };
    let portable = if policy.allow_cpu_fallback && include_xnnpack && policy.prefer_xnnpack {
        seq![ExecutionProvider::Xnnpack]
    } else {
        Seq::empty()
    };
    let cpu = if policy.allow_cpu_fallback {
        seq![ExecutionProvider::Cpu]
    } else {
        Seq::empty()
    };
    accelerator + portable + cpu
}

/// The policy of the last rung: plain CPU only.
pub open spec fn cpu_only_policy() -> ExecutionProviderPolicy {
    ExecutionProviderPolicy {
        prefer_coreml: false,
        prefer_nnapi: false,
        prefer_xnnpack: false,
        allow_cpu_fallback: true,
    }
}

/// The provider lists tried in turn: the full list; without XNNPACK when it was
/// asked for and CPU fallback is allowed; plain CPU when CPU fallback is allowed.
/// Empty lists are among them and are skipped when sessions are built.
pub open spec fn fallback_ladder(policy: ExecutionProviderPolicy, platform: Platform) -> Seq<
    Seq<ExecutionProvider>,
> {
    let first = seq![provider_list(policy, true, platform)];
    let second = if policy.allow_cpu_fallback && policy.prefer_xnnpack {
        seq![provider_list(policy, false, platform)]
    } else {
        Seq::empty()
    };
    let third = if policy.allow_cpu_fallback {
        seq![provider_list(cpu_only_policy(), false, platform)]
    } else {
        Seq::empty()
    };
    first + second + third
}

/// The providers a session is offered under `policy` on `platform`.
pub fn providers_for_policy(
    policy: &ExecutionProviderPolicy,
    include_xnnpack: bool,
    platform: Platform,
) -> (r: Vec<ExecutionProvider>)
    ensures
        r@ == provider_list(*policy, include_xnnpack, platform),
{
    let mut providers: Vec<ExecutionProvider> = Vec::new();
    if platform == Platform::Apple && policy.prefer_coreml {
        providers.push(ExecutionProvider::CoreMl);
    } else if platform == Platform::Android && policy.prefer_nnapi {
        providers.push(ExecutionProvider::Nnapi);
    }
    if policy.allow_cpu_fallback {
        if include_xnnpack && policy.prefer_xnnpack {
            providers.push(ExecutionProvider::Xnnpack);
        }
        providers.push(ExecutionProvider::Cpu);
    }
    assert(providers@ =~= provider_list(*policy, include_xnnpack, platform));
    providers
}

/// The provider lists to try, in order, as `fallback_ladder` describes.
pub fn session_attempts(policy: &ExecutionProviderPolicy, platform: Platform) -> (r: Vec<
    Vec<ExecutionProvider>,
>)
    ensures
        r@.len() == fallback_ladder(*policy, platform).len(),
        forall|i: int| 0 <= i < r@.len() ==> #[trigger] r@[i]@ == fallback_ladder(*policy, platform)[i],
{
    let mut attempts: Vec<Vec<ExecutionProvider>> = Vec::new();
    attempts.push(providers_for_policy(policy, true, platform));
    if policy.allow_cpu_fallback && policy.prefer_xnnpack {
        attempts.push(providers_for_policy(policy, false, platform));
    }
    if policy.allow_cpu_fallback {
        let cpu_only = ExecutionProviderPolicy {
            prefer_coreml: false,
            prefer_nnapi: false,
            prefer_xnnpack: false,
            allow_cpu_fallback: true,
        };
        attempts.push(providers_for_policy(&cpu_only, false, platform));
    }
    attempts
}

/// Some non-empty rung of the ladder is `providers`.
pub open spec fn on_ladder(
    policy: ExecutionProviderPolicy,
    platform: Platform,
    providers: Seq<ExecutionProvider>,
) -> bool {
    providers.len() > 0 && fallback_ladder(policy, platform).contains(providers)
}

/// Rung `k` of `ladder` is a provider list on which `build` can fail.
pub open spec fn rung_failed<S, F: Fn(&Vec<ExecutionProvider>) -> Result<S, String>>(
    build: F,
    ladder: Seq<Seq<ExecutionProvider>>,
    k: int,
) -> bool {
    exists|v: Vec<ExecutionProvider>, m: String| v@ == ladder[k] && build.ensures((&v,), Err(m))
}

/// `text` is a message `build` can fail with on some non-empty rung of the ladder.
pub open spec fn ladder_failure_text<S, F: Fn(&Vec<ExecutionProvider>) -> Result<S, String>>(
    build: F,
    policy: ExecutionProviderPolicy,
    platform: Platform,
    text: Seq<char>,
) -> bool {
    exists|v: Vec<ExecutionProvider>, m: String|
        on_ladder(policy, platform, v@) && m@ == text && build.ensures((&v,), Err(m))
}

/// `s` came from the first rung that did not fail: rung `k` is non-empty,
/// `build` can return `s` for it, and every earlier non-empty rung failed.
pub open spec fn built_on_ladder<S, F: Fn(&Vec<ExecutionProvider>) -> Result<S, String>>(
    build: F,
    policy: ExecutionProviderPolicy,
    platform: Platform,
    s: S,
) -> bool {
    let ladder = fallback_ladder(policy, platform);
    exists|k: int|
        0 <= k < ladder.len() && ladder[k].len() > 0 && (exists|v: Vec<ExecutionProvider>|
            v@ == ladder[k] && build.ensures((&v,), Ok(s))) && forall|j: int|
            0 <= j < k && #[trigger] ladder[j].len() > 0 ==> rung_failed(build, ladder, j)
}

/// Builds a session by walking the fallback ladder: each non-empty provider list
/// is handed to `build` in turn until one succeeds.
///
/// Fails with an invalid-request error when every rung is empty (nothing to try),
/// and with an inference-library error when every attempt failed; its message
/// names the model and lists the failures in order, separated by " | ".
pub fn build_session<S, F: Fn(&Vec<ExecutionProvider>) -> Result<S, String>>(
    model_path: &str,
    policy: &ExecutionProviderPolicy,
    platform: Platform,
    build: &F,
) -> (r: MlResult<S>)
    requires
        forall|p: &Vec<ExecutionProvider>| build.requires((p,)),
    ensures
        r matches Ok(s) ==> built_on_ladder(*build, *policy, platform, s),
        (r matches Err(MlError::InvalidRequest(_))) <==> (forall|i: int|
            0 <= i < fallback_ladder(*policy, platform).len() ==> #[trigger] fallback_ladder(
                *policy,
                platform,
            )[i].len() == 0),
        r matches Err(e) ==> (e is InvalidRequest || e is Ort),
        r matches Err(MlError::Ort(_)) ==> forall|k: int|
            0 <= k < fallback_ladder(*policy, platform).len() && #[trigger] fallback_ladder(
                *policy,
                platform,
            )[k].len() > 0 ==> rung_failed(*build, fallback_ladder(*policy, platform), k),
        r matches Err(MlError::Ort(text)) ==> exists|msgs: Seq<Seq<char>>|
            msgs.len() > 0 && text@ == "failed to create ONNX session for model '"@ + model_path@
                + "' across EP fallbacks: "@ + join(msgs, " | "@) && forall|t: int|
                0 <= t < msgs.len() ==> ladder_failure_text(*build, *policy, platform, #[trigger] msgs[t]),
{
    let attempts = session_attempts(policy, platform);
    let ghost ladder = fallback_ladder(*policy, platform);
    let ghost msgs: Seq<Seq<char>> = Seq::empty();
    let mut errors = String::new();
    let mut tried: usize = 0;
    let mut i: usize = 0;
    proof {
        reveal_strlit(" | ");
    }
    while i < attempts.len()
        invariant
            i <= attempts@.len(),
            attempts@.len() == ladder.len(),
            ladder == fallback_ladder(*policy, platform),
            forall|k: int| 0 <= k < attempts@.len() ==> #[trigger] attempts@[k]@ == ladder[k],
            forall|p: &Vec<ExecutionProvider>| build.requires((p,)),
            tried == 0 <==> forall|k: int| 0 <= k < i ==> #[trigger] ladder[k].len() == 0,
            tried <= i,
            msgs.len() == tried,
            errors@ == join(msgs, " | "@),
            forall|t: int|
                0 <= t < msgs.len() ==> ladder_failure_text(*build, *policy, platform, #[trigger] msgs[t]),
            forall|k: int| 0 <= k < i && #[trigger] ladder[k].len() > 0 ==> rung_failed(*build, ladder, k),
        decreases attempts@.len() - i,
    {
        let providers = &attempts[i];
        if providers.len() > 0 {
            assert(ladder[i as int] == providers@);
            assert(on_ladder(*policy, platform, providers@)) by {
                assert(ladder[i as int] == providers@);
            }
            match build(providers) {
                Ok(session) => {
                    assert(built_on_ladder(*build, *policy, platform, session)) by {
                        assert(providers@ == ladder[i as int] && build.ensures((providers,), Ok(session)));
                    }
                    return Ok(session);
                },
                Err(message) => {
                    proof {
                        assert(providers@ == ladder[i as int] && build.ensures((providers,), Err(message)));
                        assert(rung_failed(*build, ladder, i as int));
                        assert(ladder_failure_text(*build, *policy, platform, message@));
                    }
                    let ghost before = msgs;
                    if tried > 0 {
                        errors.append(" | ");
                        proof {
                            reveal_strlit(" | ");
                        }
                    }
                    errors.append(message.as_str());
                    proof {
                        msgs = before.push(message@);
                        assert(msgs.drop_last() =~= before);
                        if tried == 0 {
                            assert(join(before, " | "@) =~= Seq::<char>::empty());
                            assert(errors@ =~= join(msgs, " | "@));
                        } else {
                            assert(errors@ =~= join(msgs, " | "@));
                        }
                        assert forall|t: int| 0 <= t < msgs.len() implies ladder_failure_text(
                            *build,
                            *policy,
                            platform,
                            #[trigger] msgs[t],
                        ) by {
                            if t < before.len() {
                                assert(msgs[t] == before[t]);
                            }
                        }
                    }
                    tried = tried + 1;
                },
            }
        }
        i = i + 1;
    }
    if tried == 0 {
        return Err(
            MlError::InvalidRequest(
                String::from_str(
                    "no supported execution provider selected for this platform while CPU fallback is disabled",
                ),
            ),
        );
    }
    let mut text = String::from_str("failed to create ONNX session for model '");
    text.append(model_path);
    text.append("' across EP fallbacks: ");
    text.append(errors.as_str());
    Err(MlError::Ort(text))
}

} // verus!
