//! Which kernels a batch goes through.

use crate::kernels::moe::geometry::{ExpertQuant, MoeGeometry};
use crate::kernels::moe::meaning::{kernel_name, MoeKernel};
use crate::kernels::moe::step::MoeStepView;
use vstd::prelude::*;

verus! {

/// A step is a launch of an entry point.
pub open spec fn launches_kernel(s: MoeStepView, k: MoeKernel) -> bool {
    s matches MoeStepView::Launch(l) && l.kernel == kernel_name(k)
}

/// A single token goes through the kernels that stream a stack once. From eight
/// tokens on, with tensor cores, gate/up of one format go through the integer
/// kernel of that format, and down where it is Q8_0, each behind the
/// quantization of what it reads; everything else takes the fp32 kernels.
pub proof fn law_kernels_follow_the_batch(
    g: MoeGeometry,
    tensor_cores: bool,
    gate: ExpertQuant,
    up: ExpertQuant,
    down: ExpertQuant,
)
    requires
        g.supported(),
    ensures
        ({
            let f = g.ffn_steps(tensor_cores, gate, up);
            let d = g.down_steps(tensor_cores, down);
            let integer_ffn = tensor_cores && g.max_tokens >= 8 && gate == up;
            let integer_down = tensor_cores && g.max_tokens >= 8 && down is Q8_0;
            &&& f.len() == if integer_ffn {
                2int
            } else {
                1
            }
            &&& integer_ffn <==> f[0] is QuantizeRows
            &&& launches_kernel(
                f.last(),
                if g.max_tokens == 1 {
                    MoeKernel::ExpertFfnGemv
                } else if integer_ffn && gate is Q8_0 {
                    MoeKernel::ExpertFfnMmaQ8
                } else if integer_ffn {
                    MoeKernel::ExpertFfnMma
                } else {
                    MoeKernel::ExpertFfn
                },
            )
            &&& d.len() == if integer_down {
                2int
            } else {
                1
            }
            &&& integer_down <==> d[0] is QuantizeRows
            &&& launches_kernel(
                d.last(),
                if g.max_tokens == 1 {
                    MoeKernel::ExpertDownGemv
                } else if integer_down {
                    MoeKernel::ExpertDownMma
                } else {
                    MoeKernel::ExpertDown
                },
            )
        }),
{
}

/// A single token is routed and dispatched in one launch, and dispatched alone
/// in one; a batch is routed, counted and placed. The shared expert of a single
/// token streams its matrices.
pub proof fn law_single_token_kernels(
    g: MoeGeometry,
    gate: ExpertQuant,
    up: ExpertQuant,
    down: ExpertQuant,
)
    requires
        g.supported(),
    ensures
        ({
            let one = g.max_tokens == 1;
            let both = g.route_and_dispatch_steps();
            let d = g.dispatch_steps();
            let s = g.shared_steps(gate, up, down);
            &&& launches_kernel(g.route_steps()[0], MoeKernel::Route)
            &&& g.route_steps().len() == 1
            &&& one ==> {
                &&& both.len() == 1 && launches_kernel(both[0], MoeKernel::RouteDispatchT1)
                &&& d.len() == 1 && launches_kernel(d[0], MoeKernel::DispatchT1)
                &&& launches_kernel(s[0], MoeKernel::SharedFfnGemv)
                &&& launches_kernel(s[1], MoeKernel::SharedDownGemv)
            }
            &&& !one ==> {
                &&& both == g.route_steps() + d
                &&& d.len() == 2
                &&& launches_kernel(d[0], MoeKernel::AlignCount)
                &&& launches_kernel(d[1], MoeKernel::AlignBlockSize)
                &&& launches_kernel(s[0], MoeKernel::SharedFfn)
                &&& launches_kernel(s[1], MoeKernel::SharedDown)
            }
        }),
{
}

} // verus!
