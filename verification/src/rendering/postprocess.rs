//! The post-processing stack: effects applied in order to a rendered frame.

use vstd::prelude::*;
use crate::engine::math::UVec2;
use crate::rendering::shader::keywords::{placeholder, placeholder_keyword};
use crate::rendering::shader::shader_manager::ShaderManager;
use crate::rendering::shader::{keyword_disabled, keyword_enabled, ShaderCreateInfo, ShaderStage};

verus! {

/// The positions of the effects that run on a frame: none when the stack is
/// disabled, else every enabled effect, in order.
pub open spec fn effects_to_run(stack_enabled: bool, effect_enabled: Seq<bool>) -> Seq<usize>
    decreases effect_enabled.len(),
{
    if !stack_enabled || effect_enabled.len() == 0 {
        seq![]
    } else {
        let rest = effects_to_run(stack_enabled, effect_enabled.drop_last());
        if effect_enabled.last() {
            rest.push((effect_enabled.len() - 1) as usize)
        } else {
            rest
        }
    }
}

/// When the stack is enabled, the effects that run are exactly the enabled
/// ones, each once, in the order of the stack.
pub proof fn lemma_effects_to_run_are_the_enabled_ones(effect_enabled: Seq<bool>)
    requires
        effect_enabled.len() <= usize::MAX,
    ensures
        forall|i: int, j: int|
            0 <= i < j < effects_to_run(true, effect_enabled).len() ==> #[trigger] effects_to_run(
                true,
                effect_enabled,
            )[i] < #[trigger] effects_to_run(true, effect_enabled)[j],
        forall|i: int|
            0 <= i < effects_to_run(true, effect_enabled).len() ==> #[trigger] effects_to_run(true, effect_enabled)[i]
                < effect_enabled.len() && effect_enabled[effects_to_run(true, effect_enabled)[i] as int],
        forall|k: int|
            0 <= k < effect_enabled.len() && #[trigger] effect_enabled[k] ==> effects_to_run(
                true,
                effect_enabled,
            ).contains(k as usize),
    decreases effect_enabled.len(),
{
    if effect_enabled.len() > 0 {
        let p = effect_enabled.drop_last();
        lemma_effects_to_run_are_the_enabled_ones(p);
        let rest = effects_to_run(true, p);
        let r = effects_to_run(true, effect_enabled);
        assert forall|i: int| 0 <= i < rest.len() implies rest[i] < p.len() && effect_enabled[rest[i] as int] by {
            assert(p[rest[i] as int] == effect_enabled[rest[i] as int]);
        }
        assert forall|i: int| 0 <= i < r.len() implies #[trigger] r[i] < effect_enabled.len()
            && effect_enabled[r[i] as int] by {
            if i < rest.len() {
                assert(r[i] == rest[i]);
            }
        }
        assert forall|i: int, j: int| 0 <= i < j < r.len() implies #[trigger] r[i] < #[trigger] r[j] by {
            assert(r[i] == rest[i]);
            if j < rest.len() {
                assert(r[j] == rest[j]);
            } else {
                assert(rest[i] < p.len());
            }
        }
        assert forall|k: int| 0 <= k < effect_enabled.len() && #[trigger] effect_enabled[k] implies r.contains(
            k as usize,
        ) by {
            if k < p.len() {
                assert(p[k] == effect_enabled[k]);
                assert(rest.contains(k as usize));
                let w = choose|w: int| 0 <= w < rest.len() && rest[w] == k as usize;
                assert(r[w] == k as usize);
            } else {
                assert(r[r.len() - 1] == k as usize);
            }
        }
    }
}

/// An ordered list of post-processing effects that can be switched off as a
/// whole.
pub struct PostprocessingStack<E> {
    post_effects: Vec<E>,
    enabled: bool,
}

/// The abstract state of a stack.
pub struct PostprocessingStackView<E> {
    pub post_effects: Seq<E>,
    pub enabled: bool,
}

impl<E> View for PostprocessingStack<E> {
    type V = PostprocessingStackView<E>;

    closed spec fn view(&self) -> PostprocessingStackView<E> {
        PostprocessingStackView { post_effects: self.post_effects@, enabled: self.enabled }
    }
}

impl<E> PostprocessingStack<E> {
    /// Appends an effect; it runs after the ones already there.
    pub fn add_effect(&mut self, effect: E)
        ensures
            final(self)@.post_effects == old(self)@.post_effects.push(effect),
            final(self)@.enabled == old(self)@.enabled,
    {
        self.post_effects.push(effect);
    }

    pub fn enabled(&self) -> (r: bool)
        ensures
            r == self@.enabled,
    {
        self.enabled
    }

    /// Switches the whole stack on or off.
    pub fn set_enabled(&mut self, enabled: bool)
        ensures
            final(self)@.post_effects == old(self)@.post_effects,
            final(self)@.enabled == enabled,
    {
        self.enabled = enabled;
    }

    pub fn len(&self) -> (r: usize)
        ensures
            r == self@.post_effects.len(),
    {
        self.post_effects.len()
    }

    /// The effect at `index`.
    pub fn effect(&self, index: usize) -> (r: &E)
        requires
            index < self@.post_effects.len(),
        ensures
            *r == self@.post_effects[index as int],
    {
        &self.post_effects[index]
    }

    /// The positions of the effects that run on a frame, given whether each
    /// effect is enabled.
    pub fn effects_to_apply(&self, effect_enabled: &Vec<bool>) -> (r: Vec<usize>)
        requires
            effect_enabled@.len() == self@.post_effects.len(),
        ensures
            r@ == effects_to_run(self@.enabled, effect_enabled@),
            !self@.enabled ==> r@.len() == 0,
            forall|i: int, j: int| 0 <= i < j < r@.len() ==> #[trigger] r@[i] < #[trigger] r@[j],
            forall|i: int| 0 <= i < r@.len() ==> #[trigger] r@[i] < effect_enabled@.len() && effect_enabled@[r@[i] as int],
            self@.enabled ==> forall|k: int|
                0 <= k < effect_enabled@.len() && #[trigger] effect_enabled@[k] ==> r@.contains(k as usize),
    {
        let mut r: Vec<usize> = Vec::new();
        if !self.enabled {
            return r;
        }
        let mut i: usize = 0;
        while i < effect_enabled.len()
            invariant
                i <= effect_enabled@.len(),
                self@.enabled,
                r@ == effects_to_run(true, effect_enabled@.take(i as int)),
            decreases effect_enabled@.len() - i,
        {
            assert(effect_enabled@.take(i + 1).drop_last() == effect_enabled@.take(i as int));
            assert(effect_enabled@.take(i + 1).last() == effect_enabled@[i as int]);
            if effect_enabled[i] {
                r.push(i);
            }
            i += 1;
        }
        assert(effect_enabled@.take(i as int) == effect_enabled@);
        proof {
            lemma_effects_to_run_are_the_enabled_ones(effect_enabled@);
        }
        r
    }
}

/// Collects effects for a stack, which starts enabled.
pub struct PostprocessingStackBuilder<E> {
    post_effects: Vec<E>,
    enabled: bool,
}

impl<E> View for PostprocessingStackBuilder<E> {
    type V = PostprocessingStackView<E>;

    closed spec fn view(&self) -> PostprocessingStackView<E> {
        PostprocessingStackView { post_effects: self.post_effects@, enabled: self.enabled }
    }
}

impl<E> PostprocessingStackBuilder<E> {
    pub fn new() -> (r: Self)
        ensures
            r@.post_effects.len() == 0,
            r@.enabled,
    {
        PostprocessingStackBuilder { post_effects: Vec::new(), enabled: true }
    }

    pub fn with_effect(self, effect: E) -> (r: Self)
        ensures
            r@.post_effects == self@.post_effects.push(effect),
            r@.enabled == self@.enabled,
    {
        let mut b = self;
        b.post_effects.push(effect);
        b
    }

    pub fn enabled(self, enabled: bool) -> (r: Self)
        ensures
            r@.post_effects == self@.post_effects,
            r@.enabled == enabled,
    {
        let mut b = self;
        b.enabled = enabled;
        b
    }

    pub fn build(self) -> (r: PostprocessingStack<E>)
        ensures
            r@.post_effects == self@.post_effects,
            r@.enabled == self@.enabled,
    {
        PostprocessingStack { post_effects: self.post_effects, enabled: self.enabled }
    }
}

/// The shader passes of the bloom effect, one keyword each.
pub open spec fn bloom_pass_keywords() -> Seq<Seq<char>> {
    seq![
        "BLOOM_PASS_DOWNSAMPLE_PREFILTER"@,
        "BLOOM_PASS_DOWNSAMPLE"@,
        "BLOOM_PASS_UPSAMPLE"@,
        "BLOOM_PASS_UPSAMPLE_APPLY"@,
    ]
}

/// The keyword that selects the Call of Duty: Advanced Warfare filter; the
/// dual filter is used without it.
pub open spec fn cod_aw_filtering() -> Seq<char> {
    "COD_AW_FILTERING"@
}

/// The size after `k + 1` divisions of `input` by `divisor`.
pub open spec fn divided_size(input: UVec2, divisor: u32, k: nat) -> UVec2
    decreases k,
{
    if k == 0 {
        UVec2 { x: input.x / divisor, y: input.y / divisor }
    } else {
        let p = divided_size(input, divisor, (k - 1) as nat);
        UVec2 { x: p.x / divisor, y: p.y / divisor }
    }
}

/// Whether a downsampling target of this size is made: both sides at least 2.
pub open spec fn usable_size(s: UVec2) -> bool {
    s.x >= 2 && s.y >= 2
}

/// The shader of the bloom effect: a fullscreen vertex stage, the bloom
/// fragment stage, the pass keywords, and the filter keyword set.
pub fn bloom_shader_create_info() -> (r: ShaderCreateInfo)
    ensures
        r.name@ == "Bloom Shader"@,
        r.keyword_sets.deep_view() == seq![bloom_pass_keywords(), seq![placeholder(), cod_aw_filtering()]],
        r.stages@.len() == 2,
        r.stages@[0].0 == ShaderStage::Vertex,
        r.stages@[0].1@ == "shaders/fullscreen.vert"@,
        r.stages@[1].0 == ShaderStage::Fragment,
        r.stages@[1].1@ == "shaders/bloom.frag"@,
{
    let mut passes: Vec<String> = Vec::new();
    passes.push(String::from_str("BLOOM_PASS_DOWNSAMPLE_PREFILTER"));
    passes.push(String::from_str("BLOOM_PASS_DOWNSAMPLE"));
    passes.push(String::from_str("BLOOM_PASS_UPSAMPLE"));
    passes.push(String::from_str("BLOOM_PASS_UPSAMPLE_APPLY"));
    let mut filters: Vec<String> = Vec::new();
    filters.push(placeholder_keyword());
    filters.push(String::from_str("COD_AW_FILTERING"));
    assert(passes.deep_view() =~= bloom_pass_keywords());
    assert(filters.deep_view() =~= seq![placeholder(), cod_aw_filtering()]);
    let mut keyword_sets: Vec<Vec<String>> = Vec::new();
    keyword_sets.push(passes);
    keyword_sets.push(filters);
    assert(keyword_sets.deep_view() =~= seq![bloom_pass_keywords(), seq![placeholder(), cod_aw_filtering()]]);
    let mut stages: Vec<(ShaderStage, String)> = Vec::new();
    stages.push((ShaderStage::Vertex, String::from_str("shaders/fullscreen.vert")));
    stages.push((ShaderStage::Fragment, String::from_str("shaders/bloom.frag")));
    ShaderCreateInfo { name: String::from_str("Bloom Shader"), keyword_sets, stages }
}

/// The settings a bloom effect is built with.
pub struct BloomBuilder {
    pub iterations: u32,
    pub enabled: bool,
}

impl Default for BloomBuilder {
    /// Four iterations, enabled.
    fn default() -> (r: Self)
        ensures
            r.iterations == 4,
            r.enabled,
    {
        BloomBuilder { iterations: 4, enabled: true }
    }
}

/// The state of a bloom effect that decides its passes: how many
/// downsampling iterations it runs, at which resolution it starts, the
/// framebuffers of its last downsampling chain, its shader and its filter.
pub struct Bloom {
    iterations: u32,
    enabled: bool,
    resolution_divisors: [u32; 2],
    resolution_divisor_index: usize,
    blit_framebuffers: Vec<u64>,
    shader: usize,
    filtering_method: usize,
}

/// The abstract state of a bloom effect.
pub struct BloomView {
    pub iterations: u32,
    pub enabled: bool,
    pub resolution_divisors: Seq<u32>,
    pub resolution_divisor_index: usize,
    pub blit_framebuffers: Seq<u64>,
    pub shader: usize,
    pub filtering_method: usize,
}

impl View for Bloom {
    type V = BloomView;

    closed spec fn view(&self) -> BloomView {
        BloomView {
            iterations: self.iterations,
            enabled: self.enabled,
            resolution_divisors: self.resolution_divisors@,
            resolution_divisor_index: self.resolution_divisor_index,
            blit_framebuffers: self.blit_framebuffers@,
            shader: self.shader,
            filtering_method: self.filtering_method,
        }
    }
}

impl Bloom {
    /// The resolution divisors are half and quarter, and one of them is
    /// selected.
    #[verifier::type_invariant]
    spec fn divisors_valid(self) -> bool {
        &&& self.resolution_divisors@ == seq![2u32, 4u32]
        &&& self.resolution_divisor_index < 2
    }

    pub fn builder() -> (r: BloomBuilder)
        ensures
            r.iterations == 4,
            r.enabled,
    {
        BloomBuilder::default()
    }

    pub fn name(&self) -> (r: &'static str)
        ensures
            r@ == "bloom"@,
    {
        "bloom"
    }

    pub fn enabled(&self) -> (r: bool)
        ensures
            r == self@.enabled,
    {
        self.enabled
    }

    pub fn enable(&mut self)
        ensures
            final(self)@ == (BloomView { enabled: true, ..old(self)@ }),
    {
        proof {
            use_type_invariant(&*self);
        }
        self.enabled = true;
    }

    pub fn disable(&mut self)
        ensures
            final(self)@ == (BloomView { enabled: false, ..old(self)@ }),
    {
        proof {
            use_type_invariant(&*self);
        }
        self.enabled = false;
    }

    pub fn iterations(&self) -> (r: u32)
        ensures
            r == self@.iterations,
    {
        self.iterations
    }

    /// The index of the bloom shader in the shader manager.
    pub fn shader(&self) -> (r: usize)
        ensures
            r == self@.shader,
    {
        self.shader
    }

    /// The framebuffers of the last downsampling chain, first to last.
    pub fn blit_framebuffers(&self) -> (r: &Vec<u64>)
        ensures
            r@ == self@.blit_framebuffers,
    {
        &self.blit_framebuffers
    }

    /// The divisor the first downsampling target is made with.
    pub fn resolution_divisor(&self) -> (r: u32)
        ensures
            r == self@.resolution_divisors[self@.resolution_divisor_index as int],
            r == 2 || r == 4,
    {
        proof {
            use_type_invariant(self);
        }
        self.resolution_divisors[self.resolution_divisor_index]
    }

    /// Sets the number of downsampling iterations; the framebuffers of the
    /// last chain are forgotten.
    pub fn set_iterations(&mut self, iterations: u32)
        ensures
            final(self)@ == (BloomView { iterations, blit_framebuffers: Seq::empty(), ..old(self)@ }),
    {
        proof {
            use_type_invariant(&*self);
        }
        self.iterations = iterations;
        self.blit_framebuffers = Vec::new();
    }

    /// Chooses the filter: 0 is the Call of Duty: Advanced Warfare filter,
    /// which enables its keyword, 1 the dual filter, which disables it.
    pub fn set_filtering_method(&mut self, shaders: &mut ShaderManager, method: usize)
        requires
            method < 2,
            old(self)@.shader < old(shaders)@.len(),
        ensures
            final(self)@ == (BloomView { filtering_method: method, ..old(self)@ }),
            final(shaders).modules() == old(shaders).modules(),
            method == 0 ==> final(shaders)@ == old(shaders)@.update(
                old(self)@.shader as int,
                keyword_enabled(old(shaders)@[old(self)@.shader as int], cod_aw_filtering()),
            ),
            method == 1 ==> final(shaders)@ == old(shaders)@.update(
                old(self)@.shader as int,
                keyword_disabled(old(shaders)@[old(self)@.shader as int], cod_aw_filtering()),
            ),
    {
        proof {
            use_type_invariant(&*self);
        }
        let keyword = String::from_str("COD_AW_FILTERING");
        let shader = shaders.shader_mut(self.shader);
        if method == 0 {
            let _ = shader.enable_keyword(&keyword);
        } else {
            let _ = shader.disable_keyword(&keyword);
        }
        self.filtering_method = method;
    }

    /// The sizes of the downsampling chain: the input divided by `divisor`,
    /// then divided again for each further iteration while both sides stay
    /// at least 2. The first target is always made, also for no iterations.
    pub fn downsampling_sizes(input: UVec2, divisor: u32, iterations: u32) -> (r: Vec<UVec2>)
        requires
            divisor > 0,
        ensures
            1 <= r@.len(),
            r@.len() <= iterations || r@.len() == 1,
            forall|k: int| 0 <= k < r@.len() ==> #[trigger] r@[k] == divided_size(input, divisor, k as nat),
            forall|k: int| 1 <= k < r@.len() ==> usable_size(#[trigger] r@[k]),
            r@.len() < iterations ==> !usable_size(divided_size(input, divisor, r@.len())),
    {
        let mut r: Vec<UVec2> = Vec::new();
        let mut size = UVec2::new(input.x / divisor, input.y / divisor);
        r.push(size);
        let mut i: u32 = 1;
        while i < iterations
            invariant
                1 <= i,
                i <= iterations || i == 1,
                divisor > 0,
                r@.len() == i,
                size == divided_size(input, divisor, (i - 1) as nat),
                forall|k: int| 0 <= k < r@.len() ==> #[trigger] r@[k] == divided_size(input, divisor, k as nat),
                forall|k: int| 1 <= k < r@.len() ==> usable_size(#[trigger] r@[k]),
            decreases iterations - i,
        {
            let next = UVec2::new(size.x / divisor, size.y / divisor);
            assert(next == divided_size(input, divisor, i as nat));
            if next.y < 2 || next.x < 2 {
                return r;
            }
            r.push(next);
            size = next;
            i += 1;
        }
        r
    }

    /// Records the framebuffers of a new downsampling chain, first to last.
    pub fn record_blit_framebuffers(&mut self, handles: Vec<u64>)
        ensures
            final(self)@ == (BloomView { blit_framebuffers: handles@, ..old(self)@ }),
    {
        proof {
            use_type_invariant(&*self);
        }
        self.blit_framebuffers = handles;
    }

    /// The targets of the upsampling passes: the chain's framebuffers from
    /// the second-to-last back to the first.
    pub fn upsampling_targets(&self) -> (r: Vec<u64>)
        ensures
            self@.blit_framebuffers.len() == 0 ==> r@.len() == 0,
            self@.blit_framebuffers.len() > 0 ==> r@.len() == self@.blit_framebuffers.len() - 1,
            forall|k: int|
                0 <= k < r@.len() ==> #[trigger] r@[k] == self@.blit_framebuffers[self@.blit_framebuffers.len()
                    - 2 - k],
    {
        let mut r: Vec<u64> = Vec::new();
        let n = self.blit_framebuffers.len();
        if n == 0 {
            return r;
        }
        let mut i: usize = n - 1;
        while i > 0
            invariant
                n == self@.blit_framebuffers.len(),
                n > 0,
                i <= n - 1,
                r@.len() == n - 1 - i,
                forall|k: int| 0 <= k < r@.len() ==> #[trigger] r@[k] == self@.blit_framebuffers[n - 2 - k],
            decreases i,
        {
            r.push(self.blit_framebuffers[i - 1]);
            i -= 1;
        }
        r
    }
}

impl BloomBuilder {
    pub fn iterations(self, iterations: u32) -> (r: Self)
        ensures
            r.iterations == iterations,
            r.enabled == self.enabled,
    {
        BloomBuilder { iterations, ..self }
    }

    pub fn enabled(self, enabled: bool) -> (r: Self)
        ensures
            r.iterations == self.iterations,
            r.enabled == enabled,
    {
        BloomBuilder { enabled, ..self }
    }

    /// Builds the effect around the bloom shader at index `shader`: the
    /// iterations and enabled flag come from the builder, the chain is
    /// empty, the first divisor (half resolution) of half and quarter is
    /// selected, and the Call of Duty: Advanced Warfare filter is chosen, its
    /// keyword enabled on the shader.
    pub fn build(self, shaders: &mut ShaderManager, shader: usize) -> (r: Bloom)
        requires
            shader < old(shaders)@.len(),
        ensures
            r@.iterations == self.iterations,
            r@.enabled == self.enabled,
            r@.blit_framebuffers.len() == 0,
            r@.resolution_divisors == seq![2u32, 4u32],
            r@.resolution_divisor_index == 0,
            r@.shader == shader,
            r@.filtering_method == 0,
            final(shaders)@ == old(shaders)@.update(
                shader as int,
                keyword_enabled(old(shaders)@[shader as int], cod_aw_filtering()),
            ),
            final(shaders).modules() == old(shaders).modules(),
    {
        let keyword = String::from_str("COD_AW_FILTERING");
        let s = shaders.shader_mut(shader);
        let _ = s.enable_keyword(&keyword);
        let resolution_divisors: [u32; 2] = [2, 4];
        assert(resolution_divisors@ =~= seq![2u32, 4u32]);
        let r = Bloom {
            iterations: self.iterations,
            enabled: self.enabled,
            resolution_divisors,
            resolution_divisor_index: 0,
            blit_framebuffers: Vec::new(),
            shader,
            filtering_method: 0,
        };
        r
    }
}

} // verus!
