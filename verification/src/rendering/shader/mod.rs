pub mod keywords;
pub mod program;
pub mod shader_manager;


use vstd::prelude::*;
use crate::rendering::gl_enums;
use crate::rendering::shader::keywords::{
    lookup_bits, placeholder, placeholder_keyword, unique_keywords, unique_seq,
};

verus! {

/// Whether the device accepts SPIR-V shader binaries: the binary formats it
/// reports include the SPIR-V format.
pub fn check_spirv_support(binary_formats: &Vec<i32>) -> (r: bool)
    ensures
        r == binary_formats@.contains(gl_enums::SHADER_BINARY_FORMAT_SPIR_V_ARB as i32),
{
    let spirv = gl_enums::SHADER_BINARY_FORMAT_SPIR_V_ARB as i32;
    let mut i: usize = 0;
    while i < binary_formats.len()
        invariant
            i <= binary_formats@.len(),
            spirv == gl_enums::SHADER_BINARY_FORMAT_SPIR_V_ARB as i32,
            forall|j: int| 0 <= j < i ==> binary_formats@[j] != spirv,
        decreases binary_formats@.len() - i,
    {
        if binary_formats[i] == spirv {
            assert(binary_formats@[i as int] == spirv);
            return true;
        }
        i += 1;
    }
    false
}

/// The programmable stages a shader program is assembled from.
#[derive(Debug, Clone, Copy, PartialEq, Eq, Structural)]
pub enum ShaderStage {
    Vertex,
    TesselationControl,
    TesselationEvaluation,
    Geometry,
    Fragment,
}

impl ShaderStage {
    /// The OpenGL shader type of the stage.
    pub fn gl_enum(&self) -> (r: u32)
        ensures
            *self == ShaderStage::Vertex ==> r == gl_enums::VERTEX_SHADER,
            *self == ShaderStage::TesselationControl ==> r == gl_enums::TESS_CONTROL_SHADER,
            *self == ShaderStage::TesselationEvaluation ==> r == gl_enums::TESS_EVALUATION_SHADER,
            *self == ShaderStage::Geometry ==> r == gl_enums::GEOMETRY_SHADER,
            *self == ShaderStage::Fragment ==> r == gl_enums::FRAGMENT_SHADER,
    {
        match self {
            ShaderStage::Vertex => gl_enums::VERTEX_SHADER,
            ShaderStage::TesselationControl => gl_enums::TESS_CONTROL_SHADER,
            ShaderStage::TesselationEvaluation => gl_enums::TESS_EVALUATION_SHADER,
            ShaderStage::Geometry => gl_enums::GEOMETRY_SHADER,
            ShaderStage::Fragment => gl_enums::FRAGMENT_SHADER,
        }
    }
}

/// What a shader is made of: a name, the keyword sets its variants are
/// compiled for, and one source file per stage.
pub struct ShaderCreateInfo {
    pub name: String,
    pub keyword_sets: Vec<Vec<String>>,
    pub stages: Vec<(ShaderStage, String)>,
}

impl ShaderCreateInfo {
    /// A builder for a shader of the given name.
    pub fn builder(shader_name: &str) -> (r: ShaderCreateInfoBuilder)
        ensures
            r.name@ == shader_name@,
            r.keyword_sets@.len() == 0,
            r.modules@.len() == 0,
    {
        ShaderCreateInfoBuilder {
            name: shader_name.to_string(),
            keyword_sets: Vec::new(),
            modules: Vec::new(),
        }
    }
}

/// Collects the stages and keyword sets of a shader.
pub struct ShaderCreateInfoBuilder {
    pub name: String,
    pub keyword_sets: Vec<Vec<String>>,
    pub modules: Vec<(ShaderStage, String)>,
}

impl ShaderCreateInfoBuilder {
    /// Adds a stage compiled from the source file at `file_path`.
    pub fn stage(self, stage: ShaderStage, file_path: String) -> (r: Self)
        ensures
            r.name == self.name,
            r.keyword_sets@ == self.keyword_sets@,
            r.modules@ == self.modules@.push((stage, file_path)),
    {
        let mut b = self;
        b.modules.push((stage, file_path));
        b
    }

    /// Adds a keyword set; a keyword listed twice counts once.
    pub fn keyword_set(self, keyword_set: &Vec<String>) -> (r: Self)
        ensures
            r.name == self.name,
            r.modules@ == self.modules@,
            r.keyword_sets@.len() == self.keyword_sets@.len() + 1,
            forall|i: int| 0 <= i < self.keyword_sets@.len() ==> #[trigger] r.keyword_sets@[i] == self.keyword_sets@[i],
            r.keyword_sets@.last().deep_view() == unique_seq(keyword_set.deep_view()),
    {
        let mut b = self;
        let set = unique_keywords(keyword_set);
        b.keyword_sets.push(set);
        b
    }

    /// The create info; a shader without keyword sets gets the single set
    /// holding only the placeholder keyword.
    pub fn build(self) -> (r: ShaderCreateInfo)
        ensures
            r.name == self.name,
            r.stages@ == self.modules@,
            self.keyword_sets@.len() > 0 ==> r.keyword_sets@ == self.keyword_sets@,
            self.keyword_sets@.len() == 0 ==> r.keyword_sets@.len() == 1 && r.keyword_sets@[0].deep_view()
                == seq![placeholder()],
    {
        let keyword_sets = if self.keyword_sets.len() == 0 {
            let mut set: Vec<String> = Vec::new();
            set.push(placeholder_keyword());
            assert(set.deep_view() =~= seq![placeholder()]);
            let mut sets: Vec<Vec<String>> = Vec::new();
            sets.push(set);
            sets
        } else {
            self.keyword_sets
        };
        ShaderCreateInfo { name: self.name, keyword_sets, stages: self.modules }
    }
}

/// The bits of each keyword of a shader, in order of first occurrence.
pub struct KeywordBitfieldMap {
    entries: Vec<(String, u32)>,
}

impl View for KeywordBitfieldMap {
    type V = Seq<(Seq<char>, u32)>;

    closed spec fn view(&self) -> Seq<(Seq<char>, u32)> {
        Seq::new(self.entries@.len(), |i: int| (self.entries@[i].0@, self.entries@[i].1))
    }
}

impl KeywordBitfieldMap {
    pub fn new() -> (r: Self)
        ensures
            r@ == Seq::<(Seq<char>, u32)>::empty(),
    {
        let r = KeywordBitfieldMap { entries: Vec::new() };
        assert(r@ =~= Seq::<(Seq<char>, u32)>::empty());
        r
    }

    /// Appends an entry.
    pub fn push(&mut self, keyword: String, bits: u32)
        ensures
            final(self)@ == old(self)@.push((keyword@, bits)),
    {
        self.entries.push((keyword, bits));
        assert(self@ =~= old(self)@.push((keyword@, bits)));
    }

    pub fn len(&self) -> (r: usize)
        ensures
            r == self@.len(),
    {
        self.entries.len()
    }

    /// The bits of `keyword`, if the shader has it.
    pub fn get(&self, keyword: &String) -> (r: Option<u32>)
        ensures
            r == lookup_bits(self@, keyword@),
    {
        let mut i: usize = 0;
        assert(self@.skip(0) =~= self@);
        while i < self.entries.len()
            invariant
                i <= self.entries@.len(),
                lookup_bits(self@.skip(i as int), keyword@) == lookup_bits(self@, keyword@),
            decreases self.entries@.len() - i,
        {
            let ghost rest = self@.skip(i as int);
            assert(rest[0] == (self.entries@[i as int].0@, self.entries@[i as int].1));
            assert(rest.drop_first() == self@.skip(i + 1));
            if self.entries[i].0 == *keyword {
                return Some(self.entries[i].1);
            }
            i += 1;
        }
        assert(self@.skip(i as int).len() == 0);
        None
    }
}

/// The program of the variant compiled for bitfield `b`: the latest one
/// registered for it.
pub open spec fn variant_lookup(variants: Seq<(u32, u32)>, b: u32) -> Option<u32>
    decreases variants.len(),
{
    if variants.len() == 0 {
        None
    } else if variants.last().0 == b {
        Some(variants.last().1)
    } else {
        variant_lookup(variants.drop_last(), b)
    }
}

/// The variant made active for bitfield `b`: its program if one was
/// compiled, else the current one stays.
pub open spec fn select_variant(variants: Seq<(u32, u32)>, b: u32, current: u32) -> u32 {
    match variant_lookup(variants, b) {
        Some(p) => p,
        None => current,
    }
}

/// The active bitfield after enabling `keyword`: its bits are added.
pub open spec fn enabled_bitfield(keywords: Seq<(Seq<char>, u32)>, b: u32, keyword: Seq<char>) -> u32 {
    match lookup_bits(keywords, keyword) {
        Some(bits) => b | bits,
        None => b,
    }
}

/// The active bitfield after disabling `keyword`: its bits are removed.
pub open spec fn disabled_bitfield(keywords: Seq<(Seq<char>, u32)>, b: u32, keyword: Seq<char>) -> u32 {
    match lookup_bits(keywords, keyword) {
        Some(bits) => b & !bits,
        None => b,
    }
}

/// A registered variant is found by its bitfield.
pub proof fn lemma_variant_found(variants: Seq<(u32, u32)>, i: int)
    requires
        0 <= i < variants.len(),
    ensures
        variant_lookup(variants, variants[i].0) is Some,
    decreases variants.len(),
{
    if variants.last().0 != variants[i].0 {
        assert(variants.drop_last()[i] == variants[i]);
        lemma_variant_found(variants.drop_last(), i);
    }
}

/// The abstract state of a shader.
pub struct ShaderView {
    pub name: Seq<char>,
    pub bound: bool,
    pub active_variant: u32,
    pub active_variant_bitfield: u32,
    pub variants: Seq<(u32, u32)>,
    pub keywords: Seq<(Seq<char>, u32)>,
}

impl ShaderView {
    /// Whenever a variant was compiled for the active keywords, it is the
    /// active one.
    pub open spec fn active_matches(self) -> bool {
        variant_lookup(self.variants, self.active_variant_bitfield) is Some ==> self.active_variant
            == variant_lookup(self.variants, self.active_variant_bitfield)->Some_0
    }
}

/// The shader after enabling `keyword`: a keyword it has adds its bits to the
/// active bitfield, selects the matching variant and binds the shader; an
/// unknown keyword changes nothing.
pub open spec fn keyword_enabled(v: ShaderView, keyword: Seq<char>) -> ShaderView {
    if lookup_bits(v.keywords, keyword) is None {
        v
    } else {
        let b = enabled_bitfield(v.keywords, v.active_variant_bitfield, keyword);
        ShaderView { active_variant_bitfield: b, active_variant: select_variant(v.variants, b, v.active_variant), bound: true, ..v }
    }
}

/// The shader after disabling `keyword`: a keyword it has takes its bits
/// off the active bitfield, selects the matching variant and binds the
/// shader; an unknown keyword changes nothing.
pub open spec fn keyword_disabled(v: ShaderView, keyword: Seq<char>) -> ShaderView {
    if lookup_bits(v.keywords, keyword) is None {
        v
    } else {
        let b = disabled_bitfield(v.keywords, v.active_variant_bitfield, keyword);
        ShaderView { active_variant_bitfield: b, active_variant: select_variant(v.variants, b, v.active_variant), bound: true, ..v }
    }
}

/// A shader with keyword-selected variants: each variant is a program
/// pipeline compiled for one combination of keywords, identified by the
/// union of the keywords' bits.
pub struct Shader {
    name: String,
    bound: bool,
    active_variant: u32,
    active_variant_bitfield: u32,
    shader_variants: Vec<(u32, u32)>,
    keyword_bitfield_map: KeywordBitfieldMap,
}

impl View for Shader {
    type V = ShaderView;

    closed spec fn view(&self) -> ShaderView {
        ShaderView {
            name: self.name@,
            bound: self.bound,
            active_variant: self.active_variant,
            active_variant_bitfield: self.active_variant_bitfield,
            variants: self.shader_variants@,
            keywords: self.keyword_bitfield_map@,
        }
    }
}

impl Shader {
    /// A shader whose default variant (for `default_bitfield`) is active and
    /// not yet bound.
    pub fn new(
        name: String,
        keyword_bitfield_map: KeywordBitfieldMap,
        shader_variants: Vec<(u32, u32)>,
        default_bitfield: u32,
    ) -> (r: Shader)
        requires
            variant_lookup(shader_variants@, default_bitfield) is Some,
        ensures
            r@.name == name@,
            !r@.bound,
            r@.active_variant_bitfield == default_bitfield,
            r@.active_variant == variant_lookup(shader_variants@, default_bitfield)->Some_0,
            r@.variants == shader_variants@,
            r@.keywords == keyword_bitfield_map@,
            r@.active_matches(),
    {
        let active = Self::lookup_variant(&shader_variants, default_bitfield);
        Shader {
            name,
            bound: false,
            active_variant: active.unwrap(),
            active_variant_bitfield: default_bitfield,
            shader_variants,
            keyword_bitfield_map,
        }
    }

    fn lookup_variant(variants: &Vec<(u32, u32)>, b: u32) -> (r: Option<u32>)
        ensures
            r == variant_lookup(variants@, b),
    {
        let mut i: usize = variants.len();
        assert(variants@.take(i as int) =~= variants@);
        while i > 0
            invariant
                i <= variants@.len(),
                variant_lookup(variants@.take(i as int), b) == variant_lookup(variants@, b),
            decreases i,
        {
            let ghost t = variants@.take(i as int);
            assert(t.drop_last() == variants@.take(i - 1));
            assert(t.last() == variants@[i - 1]);
            if variants[i - 1].0 == b {
                return Some(variants[i - 1].1);
            }
            i -= 1;
        }
        None
    }

    pub fn name(&self) -> (r: &String)
        ensures
            r@ == self@.name,
    {
        &self.name
    }

    pub fn active_variant(&self) -> (r: u32)
        ensures
            r == self@.active_variant,
    {
        self.active_variant
    }

    pub fn active_variant_bitfield(&self) -> (r: u32)
        ensures
            r == self@.active_variant_bitfield,
    {
        self.active_variant_bitfield
    }

    pub fn is_bound(&self) -> (r: bool)
        ensures
            r == self@.bound,
    {
        self.bound
    }

    /// Makes the variant compiled for `bitfield` active, if there is one.
    pub fn set_active_shader_variant(&mut self, bitfield: u32)
        ensures
            final(self)@ == (ShaderView {
                active_variant: select_variant(old(self)@.variants, bitfield, old(self)@.active_variant),
                ..old(self)@
            }),
    {
        match Self::lookup_variant(&self.shader_variants, bitfield) {
            Some(p) => {
                self.active_variant = p;
            },
            None => {},
        }
    }

    /// Adds the keyword's bits to the active bitfield, selects the matching
    /// variant and marks the shader bound; returns the program to bind, or
    /// `None` (and changes nothing) for a keyword the shader does not have.
    pub fn enable_keyword(&mut self, keyword: &String) -> (r: Option<u32>)
        ensures
            lookup_bits(old(self)@.keywords, keyword@) is None ==> r is None && final(self)@ == old(self)@,
            lookup_bits(old(self)@.keywords, keyword@) is Some ==> ({
                let b = enabled_bitfield(old(self)@.keywords, old(self)@.active_variant_bitfield, keyword@);
                &&& final(self)@ == (ShaderView {
                    active_variant_bitfield: b,
                    active_variant: select_variant(old(self)@.variants, b, old(self)@.active_variant),
                    bound: true,
                    ..old(self)@
                })
                &&& r == Some(final(self)@.active_variant)
            }),
            final(self)@.active_matches() || final(self)@ == old(self)@,
            final(self)@ == keyword_enabled(old(self)@, keyword@),
    {
        match self.keyword_bitfield_map.get(keyword) {
            Some(bits) => {
                let b = self.active_variant_bitfield | bits;
                self.active_variant_bitfield = b;
                self.set_active_shader_variant(b);
                self.bound = true;
                Some(self.active_variant)
            },
            None => None,
        }
    }

    /// Removes the keyword's bits from the active bitfield, selects the
    /// matching variant and marks the shader bound; returns the program to
    /// bind, or `None` (and changes nothing) for a keyword the shader does
    /// not have.
    pub fn disable_keyword(&mut self, keyword: &String) -> (r: Option<u32>)
        ensures
            lookup_bits(old(self)@.keywords, keyword@) is None ==> r is None && final(self)@ == old(self)@,
            lookup_bits(old(self)@.keywords, keyword@) is Some ==> ({
                let b = disabled_bitfield(old(self)@.keywords, old(self)@.active_variant_bitfield, keyword@);
                &&& final(self)@ == (ShaderView {
                    active_variant_bitfield: b,
                    active_variant: select_variant(old(self)@.variants, b, old(self)@.active_variant),
                    bound: true,
                    ..old(self)@
                })
                &&& r == Some(final(self)@.active_variant)
            }),
            final(self)@.active_matches() || final(self)@ == old(self)@,
            final(self)@ == keyword_disabled(old(self)@, keyword@),
    {
        match self.keyword_bitfield_map.get(keyword) {
            Some(bits) => {
                let b = self.active_variant_bitfield & !bits;
                self.active_variant_bitfield = b;
                self.set_active_shader_variant(b);
                self.bound = true;
                Some(self.active_variant)
            },
            None => None,
        }
    }

    /// Binds the active variant unless the shader is bound already; returns
    /// the program to bind.
    pub fn bind(&mut self) -> (r: Option<u32>)
        ensures
            old(self)@.bound ==> r is None && final(self)@ == old(self)@,
            !old(self)@.bound ==> r == Some(old(self)@.active_variant) && final(self)@ == (ShaderView {
                bound: true,
                ..old(self)@
            }),
    {
        if !self.bound {
            self.bound = true;
            Some(self.active_variant)
        } else {
            None
        }
    }

    /// Marks the shader unbound.
    pub fn unbind(&mut self)
        ensures
            final(self)@ == (ShaderView { bound: false, ..old(self)@ }),
    {
        self.bound = false;
    }
}

proof fn lemma_bit_roundtrip(b: u32, bits: u32)
    requires
        (b & bits) == 0,
    ensures
        ((b | bits) & !bits) == b,
{
    assert(((b | bits) & !bits) == b) by (bit_vector)
        requires (b & bits) == 0;
}

proof fn lemma_bit_idempotent(b: u32, bits: u32)
    ensures
        ((b | bits) | bits) == (b | bits),
        ((b & !bits) & !bits) == (b & !bits),
{
    assert(((b | bits) | bits) == (b | bits)) by (bit_vector);
    assert(((b & !bits) & !bits) == (b & !bits)) by (bit_vector);
}

/// Disabling a keyword undoes enabling it when none of its bits were set.
pub proof fn lemma_enable_then_disable(keywords: Seq<(Seq<char>, u32)>, b: u32, keyword: Seq<char>)
    requires
        lookup_bits(keywords, keyword) is Some ==> (b & lookup_bits(keywords, keyword)->Some_0) == 0,
    ensures
        disabled_bitfield(keywords, enabled_bitfield(keywords, b, keyword), keyword) == b,
{
    if lookup_bits(keywords, keyword) is Some {
        lemma_bit_roundtrip(b, lookup_bits(keywords, keyword)->Some_0);
    }
}

/// Enabling or disabling a keyword twice is the same as doing it once.
pub proof fn lemma_keyword_toggles_idempotent(keywords: Seq<(Seq<char>, u32)>, b: u32, keyword: Seq<char>)
    ensures
        enabled_bitfield(keywords, enabled_bitfield(keywords, b, keyword), keyword) == enabled_bitfield(
            keywords,
            b,
            keyword,
        ),
        disabled_bitfield(keywords, disabled_bitfield(keywords, b, keyword), keyword) == disabled_bitfield(
            keywords,
            b,
            keyword,
        ),
{
    if lookup_bits(keywords, keyword) is Some {
        lemma_bit_idempotent(b, lookup_bits(keywords, keyword)->Some_0);
    }
}

} // verus!
