//! Shader creation: the keyword bits of a shader, the keyword combinations
//! its variants are compiled for, and the registry of created shaders.

use vstd::prelude::*;
use vstd::string::*;
use crate::rendering::shader::keywords::{
    bitfield_map_for, cartesian, flatten_seq, is_placeholder, keyword_bits, keyword_combinations,
    lemma_cartesian_first, lemma_cartesian_members, lemma_count_prefix, lemma_flatten_contains,
    lemma_lookup_finds, lemma_or_unique, lemma_unique_contains, lookup_bits, non_placeholder_count, or_bits,
    placeholder, unique_keywords, unique_seq,
};
use crate::rendering::shader::{KeywordBitfieldMap, Shader, ShaderCreateInfo, ShaderView, variant_lookup, lemma_variant_found};

verus! {

/// The first keyword of every set.
pub open spec fn first_keywords(sets: Seq<Seq<Seq<char>>>) -> Seq<Seq<char>> {
    Seq::new(sets.len(), |j: int| sets[j][0])
}

/// The keywords a variant is compiled with: those of its combination, less
/// the placeholder.
pub open spec fn defines_of(keywords: Seq<Seq<char>>) -> Seq<Seq<char>>
    decreases keywords.len(),
{
    if keywords.len() == 0 {
        seq![]
    } else if keywords.last() == placeholder() {
        defines_of(keywords.drop_last())
    } else {
        defines_of(keywords.drop_last()).push(keywords.last())
    }
}

/// The variants of a shader: for each keyword combination, the union of its
/// keywords' bits paired with the program compiled for it.
pub open spec fn variants_for(
    sets: Seq<Seq<Seq<char>>>,
    programs: Seq<u32>,
) -> Seq<(u32, u32)> {
    Seq::new(
        programs.len(),
        |k: int| (or_bits(bitfield_map_for(sets), unique_seq(cartesian(sets)[k])), programs[k]),
    )
}

/// A keyword of one of the sets has bits in the shader's table.
pub proof fn lemma_set_keyword_has_bits(sets: Seq<Seq<Seq<char>>>, j: int, x: Seq<char>)
    requires
        0 <= j < sets.len(),
        sets[j].contains(x),
    ensures
        lookup_bits(bitfield_map_for(sets), x) is Some,
{
    lemma_flatten_contains(sets, j, x);
    let f = flatten_seq(sets);
    lemma_unique_contains(f, x);
    let u = unique_seq(f);
    let i = choose|i: int| 0 <= i < u.len() && u[i] == x;
    let m = keyword_bits(u);
    assert(m[i].0 == x);
    lemma_lookup_finds(m, i);
}

/// Every keyword of every combination has bits in the shader's table.
pub proof fn lemma_combination_keywords_have_bits(sets: Seq<Seq<Seq<char>>>, k: int, y: Seq<char>)
    requires
        0 <= k < cartesian(sets).len(),
        unique_seq(cartesian(sets)[k]).contains(y),
    ensures
        lookup_bits(bitfield_map_for(sets), y) is Some,
{
    let c = cartesian(sets)[k];
    lemma_unique_contains(c, y);
    let j = choose|j: int| 0 <= j < c.len() && c[j] == y;
    lemma_cartesian_members(sets, k);
    assert(sets[j].contains(c[j]));
    lemma_set_keyword_has_bits(sets, j, y);
}

/// The default variant of a shader, chosen by the first keyword of each set,
/// is the first combination and so is always compiled.
pub proof fn lemma_default_variant_compiled(sets: Seq<Seq<Seq<char>>>, programs: Seq<u32>)
    requires
        forall|j: int| 0 <= j < sets.len() ==> (#[trigger] sets[j]).len() > 0,
        programs.len() == cartesian(sets).len(),
    ensures
        variant_lookup(variants_for(sets, programs), or_bits(bitfield_map_for(sets), first_keywords(sets))) is Some,
{
    lemma_cartesian_first(sets);
    let m = bitfield_map_for(sets);
    assert(cartesian(sets)[0] == first_keywords(sets));
    lemma_or_unique(m, cartesian(sets)[0]);
    let v = variants_for(sets, programs);
    assert(v[0].0 == or_bits(m, first_keywords(sets)));
    lemma_variant_found(v, 0);
}

/// The module cached for the shader source file `file_name`: the one
/// cached last under that name.
pub open spec fn module_lookup(modules: Seq<(Seq<char>, u32)>, file_name: Seq<char>) -> Option<u32>
    decreases modules.len(),
{
    if modules.len() == 0 {
        None
    } else if modules.last().0 == file_name {
        Some(modules.last().1)
    } else {
        module_lookup(modules.drop_last(), file_name)
    }
}

/// The directive a GLSL source starts with.
pub open spec fn version_directive() -> Seq<char> {
    seq!['#', 'v', 'e', 'r', 's', 'i', 'o', 'n']
}

/// The start of a define line.
pub open spec fn define_prefix() -> Seq<char> {
    seq!['#', 'd', 'e', 'f', 'i', 'n', 'e', ' ']
}

/// One `#define` line per keyword, in order.
pub open spec fn define_lines(defines: Seq<Seq<char>>) -> Seq<char>
    decreases defines.len(),
{
    if defines.len() == 0 {
        seq![]
    } else {
        define_lines(defines.drop_last()) + define_prefix() + defines.last() + seq!['\n']
    }
}

/// `i` is the position of the first line break of `s`.
pub open spec fn is_first_line_end(s: Seq<char>, i: int) -> bool {
    &&& 0 <= i < s.len()
    &&& s[i] == '\n'
    &&& forall|j: int| 0 <= j < i ==> s[j] != '\n'
}

/// The source of a variant: the define lines of its keywords follow the
/// `#version` line when the source starts with one, and precede the source
/// otherwise.
pub open spec fn variant_source_text(source: Seq<char>, defines: Seq<Seq<char>>) -> Seq<char> {
    if source.len() >= 8 && source.take(8) == version_directive() && exists|i: int| is_first_line_end(source, i) {
        let i = choose|i: int| is_first_line_end(source, i);
        source.take(i + 1) + define_lines(defines) + source.skip(i + 1)
    } else {
        define_lines(defines) + source
    }
}

/// The created shaders, in creation order, and the cache of compiled shader
/// modules by source file name.
pub struct ShaderManager {
    shaders: Vec<Shader>,
    module_cache: Vec<(String, u32)>,
}

impl View for ShaderManager {
    type V = Seq<ShaderView>;

    closed spec fn view(&self) -> Seq<ShaderView> {
        self.shaders@.map_values(|s: Shader| s@)
    }
}

fn flatten_keywords(sets: &Vec<Vec<String>>) -> (r: Vec<String>)
    ensures
        r.deep_view() == flatten_seq(sets.deep_view()),
{
    let mut r: Vec<String> = Vec::new();
    let mut i: usize = 0;
    while i < sets.len()
        invariant
            i <= sets@.len(),
            r.deep_view() == flatten_seq(sets.deep_view().take(i as int)),
        decreases sets@.len() - i,
    {
        let set = &sets[i];
        let ghost before = r.deep_view();
        let mut j: usize = 0;
        while j < set.len()
            invariant
                i < sets@.len(),
                j <= set@.len(),
                set == &sets@[i as int],
                r.deep_view() == before + set.deep_view().take(j as int),
            decreases set@.len() - j,
        {
            let k = set[j].clone();
            let ghost r0 = r@;
            assert(r.deep_view().len() == r0.len());
            assert(set.deep_view().take(j as int).len() == j);
            assert(r0.len() == before.len() + j);
            r.push(k);
            assert(k@ == set.deep_view()[j as int]);
            assert(r@ == r0.push(k));
            let ghost target = before + set.deep_view().take(j + 1);
            assert(r.deep_view().len() == target.len());
            assert forall|x: int| 0 <= x < target.len() implies r.deep_view()[x] == target[x] by {
                if x < r0.len() {
                    assert(r.deep_view()[x] == r@[x]@);
                    assert(r@[x] == r0[x]);
                    assert(r0[x]@ == (before + set.deep_view().take(j as int))[x]);
                } else {
                    assert(r.deep_view()[x] == k@);
                }
            }
            assert(r.deep_view() =~= target);
            j += 1;
        }
        assert(set.deep_view().take(j as int) =~= set.deep_view());
        assert(sets.deep_view().take(i + 1).drop_last() =~= sets.deep_view().take(i as int));
        assert(sets.deep_view().take(i + 1).last() == set.deep_view());
        i += 1;
    }
    assert(sets.deep_view().take(i as int) =~= sets.deep_view());
    r
}

impl ShaderManager {
    /// The cached modules, in caching order.
    pub closed spec fn modules(&self) -> Seq<(Seq<char>, u32)> {
        Seq::new(self.module_cache@.len(), |i: int| (self.module_cache@[i].0@, self.module_cache@[i].1))
    }

    pub fn new() -> (r: Self)
        ensures
            r@.len() == 0,
            r.modules().len() == 0,
    {
        let r = ShaderManager { shaders: Vec::new(), module_cache: Vec::new() };
        assert(r@ =~= Seq::<ShaderView>::empty());
        r
    }

    /// The module cached for the source file `file_name`, if one was compiled
    /// from it before.
    pub fn cached_module(&self, file_name: &String) -> (r: Option<u32>)
        ensures
            r == module_lookup(self.modules(), file_name@),
    {
        let mut i: usize = self.module_cache.len();
        assert(self.modules().take(i as int) =~= self.modules());
        while i > 0
            invariant
                i <= self.module_cache@.len(),
                module_lookup(self.modules().take(i as int), file_name@) == module_lookup(self.modules(), file_name@),
            decreases i,
        {
            let ghost t = self.modules().take(i as int);
            assert(t.drop_last() =~= self.modules().take(i - 1));
            assert(t.last() == (self.module_cache@[i - 1].0@, self.module_cache@[i - 1].1));
            if self.module_cache[i - 1].0 == *file_name {
                return Some(self.module_cache[i - 1].1);
            }
            i -= 1;
        }
        None
    }

    /// For each stage's source file of a variant, the cached module to reuse,
    /// or `None` where the stage is to be compiled.
    pub fn module_plan(&self, file_names: &Vec<String>) -> (r: Vec<Option<u32>>)
        ensures
            r@.len() == file_names@.len(),
            forall|k: int| 0 <= k < r@.len() ==> #[trigger] r@[k] == module_lookup(self.modules(), file_names@[k]@),
    {
        let mut r: Vec<Option<u32>> = Vec::new();
        let mut k: usize = 0;
        while k < file_names.len()
            invariant
                k <= file_names@.len(),
                r@.len() == k,
                forall|j: int| 0 <= j < k ==> #[trigger] r@[j] == module_lookup(self.modules(), file_names@[j]@),
            decreases file_names@.len() - k,
        {
            r.push(self.cached_module(&file_names[k]));
            k += 1;
        }
        r
    }

    /// Caches the modules compiled for a shader, each under its source file
    /// name, in the order given; a later module replaces an earlier one of
    /// the same name. The shaders stay as they are.
    pub fn cache_modules(&mut self, compiled: Vec<(String, u32)>)
        ensures
            final(self)@ == old(self)@,
            final(self).modules() == old(self).modules() + Seq::new(
                compiled@.len(),
                |i: int| (compiled@[i].0@, compiled@[i].1),
            ),
    {
        let ghost added = Seq::new(compiled@.len(), |i: int| (compiled@[i].0@, compiled@[i].1));
        let mut i: usize = 0;
        while i < compiled.len()
            invariant
                i <= compiled@.len(),
                added == Seq::new(compiled@.len(), |i: int| (compiled@[i].0@, compiled@[i].1)),
                self@ == old(self)@,
                self.modules() == old(self).modules() + added.take(i as int),
            decreases compiled@.len() - i,
        {
            let name = compiled[i].0.clone();
            let ghost before = self.modules();
            self.module_cache.push((name, compiled[i].1));
            assert(self.modules() =~= before.push(added[i as int]));
            assert(added.take(i + 1) =~= added.take(i as int).push(added[i as int]));
            i += 1;
        }
        assert(added.take(added.len() as int) =~= added);
    }

    /// Gives every distinct keyword of the shader, in order of first
    /// occurrence, its bits: none for the placeholder `_`, the next unused
    /// single bit for any other keyword.
    pub fn create_keyword_bitfield_map(create_info: &ShaderCreateInfo) -> (r: KeywordBitfieldMap)
        requires
            non_placeholder_count(unique_seq(flatten_seq(create_info.keyword_sets.deep_view()))) <= 32,
        ensures
            r@ == bitfield_map_for(create_info.keyword_sets.deep_view()),
    {
        let flat = flatten_keywords(&create_info.keyword_sets);
        let u = unique_keywords(&flat);
        let ghost uv = u.deep_view();
        let mut map = KeywordBitfieldMap::new();
        let mut acc: u32 = 0;
        let mut i: usize = 0;
        proof {
            lemma_count_prefix(uv, 0, uv.len() as int);
            assert(uv.take(uv.len() as int) == uv);
        }
        while i < u.len()
            invariant
                i <= u@.len(),
                uv == u.deep_view(),
                non_placeholder_count(uv) <= 32,
                acc == non_placeholder_count(uv.take(i as int)),
                map@ == keyword_bits(uv).take(i as int),
            decreases u@.len() - i,
        {
            proof {
                lemma_count_prefix(uv, i as int, uv.len() as int);
                lemma_count_prefix(uv, i as int, i + 1);
                assert(uv.take(uv.len() as int) == uv);
                assert(uv.take(i + 1).drop_last() == uv.take(i as int));
            }
            let keyword = u[i].clone();
            assert(keyword@ == uv[i as int]);
            if is_placeholder(&keyword) {
                map.push(keyword, 0);
            } else {
                map.push(keyword, 1u32 << acc);
                acc = acc + 1;
            }
            i += 1;
            assert(map@ =~= keyword_bits(uv).take(i as int));
        }
        assert(keyword_bits(uv).take(i as int) =~= keyword_bits(uv));
        map
    }

    /// Every combination of one keyword per set, the first set varying
    /// slowest, each without repeated keywords.
    pub fn extract_keyword_set_combinations(create_info: &ShaderCreateInfo) -> (r: Vec<Vec<String>>)
        ensures
            r@.len() == cartesian(create_info.keyword_sets.deep_view()).len(),
            forall|k: int|
                0 <= k < r@.len() ==> (#[trigger] r@[k]).deep_view() == unique_seq(
                    cartesian(create_info.keyword_sets.deep_view())[k],
                ),
    {
        let all = keyword_combinations(&create_info.keyword_sets);
        let ghost c = cartesian(create_info.keyword_sets.deep_view());
        let mut r: Vec<Vec<String>> = Vec::new();
        let mut k: usize = 0;
        while k < all.len()
            invariant
                k <= all@.len(),
                all.deep_view() == c,
                r@.len() == k,
                forall|j: int| 0 <= j < k ==> (#[trigger] r@[j]).deep_view() == unique_seq(c[j]),
            decreases all@.len() - k,
        {
            assert(all[k as int].deep_view() == c[k as int]);
            let combination = unique_keywords(&all[k]);
            r.push(combination);
            k += 1;
        }
        r
    }

    /// The union of the bits of `keywords`, all of which the shader has.
    pub fn variant_bitfield(keywords: &Vec<String>, keyword_bitfield_map: &KeywordBitfieldMap) -> (r: u32)
        requires
            forall|i: int|
                0 <= i < keywords@.len() ==> lookup_bits(keyword_bitfield_map@, #[trigger] keywords@[i]@) is Some,
        ensures
            r == or_bits(keyword_bitfield_map@, keywords.deep_view()),
    {
        let ghost kv = keywords.deep_view();
        let mut acc: u32 = 0;
        let mut i: usize = 0;
        while i < keywords.len()
            invariant
                i <= keywords@.len(),
                kv == keywords.deep_view(),
                forall|j: int|
                    0 <= j < keywords@.len() ==> lookup_bits(keyword_bitfield_map@, #[trigger] keywords@[j]@) is Some,
                acc == or_bits(keyword_bitfield_map@, kv.take(i as int)),
            decreases keywords@.len() - i,
        {
            assert(kv.take(i + 1).drop_last() == kv.take(i as int));
            assert(kv.take(i + 1).last() == keywords@[i as int]@);
            let bits = keyword_bitfield_map.get(&keywords[i]).unwrap();
            acc = acc | bits;
            i += 1;
        }
        assert(kv.take(i as int) == kv);
        acc
    }

    /// The bitfield of the default variant: the union of the bits of the
    /// first keyword of every set.
    pub fn default_variant_bitfield(create_info: &ShaderCreateInfo, keyword_bitfield_map: &KeywordBitfieldMap) -> (r: u32)
        requires
            forall|j: int|
                0 <= j < create_info.keyword_sets@.len() ==> (#[trigger] create_info.keyword_sets@[j])@.len() > 0,
            forall|j: int|
                0 <= j < create_info.keyword_sets@.len() ==> lookup_bits(
                    keyword_bitfield_map@,
                    (#[trigger] create_info.keyword_sets@[j])@[0]@,
                ) is Some,
        ensures
            r == or_bits(keyword_bitfield_map@, first_keywords(create_info.keyword_sets.deep_view())),
    {
        let ghost sv = create_info.keyword_sets.deep_view();
        let ghost fv = first_keywords(sv);
        let sets = &create_info.keyword_sets;
        let mut acc: u32 = 0;
        let mut i: usize = 0;
        while i < sets.len()
            invariant
                i <= sets@.len(),
                sv == sets.deep_view(),
                fv == first_keywords(sv),
                forall|j: int| 0 <= j < sets@.len() ==> (#[trigger] sets@[j])@.len() > 0,
                forall|j: int| 0 <= j < sets@.len() ==> lookup_bits(keyword_bitfield_map@, (#[trigger] sets@[j])@[0]@) is Some,
                acc == or_bits(keyword_bitfield_map@, fv.take(i as int)),
            decreases sets@.len() - i,
        {
            assert(fv.take(i + 1).drop_last() == fv.take(i as int));
            assert(fv.take(i + 1).last() == sets@[i as int]@[0]@);
            let bits = keyword_bitfield_map.get(&sets[i][0]).unwrap();
            acc = acc | bits;
            i += 1;
        }
        assert(fv.take(i as int) == fv);
        acc
    }

    /// The source a variant is compiled from: the define lines of `defines`
    /// inserted after the `#version` line, or in front of a source without
    /// one.
    pub fn variant_source(source: &str, defines: &Vec<String>) -> (r: String)
        ensures
            r@ == variant_source_text(source@, defines.deep_view()),
    {
        let ghost dv = defines.deep_view();
        let mut lines = String::new();
        let mut k: usize = 0;
        proof {
            reveal_strlit("#define ");
            reveal_strlit("\n");
            assert(dv.take(0) =~= Seq::<Seq<char>>::empty());
        }
        while k < defines.len()
            invariant
                k <= defines@.len(),
                dv == defines.deep_view(),
                lines@ == define_lines(dv.take(k as int)),
                "#define "@ == define_prefix(),
                "\n"@ == seq!['\n'],
            decreases defines@.len() - k,
        {
            let ghost before = lines@;
            lines.append("#define ");
            lines.append(defines[k].as_str());
            lines.append("\n");
            assert(dv.take(k + 1).drop_last() =~= dv.take(k as int));
            assert(dv.take(k + 1).last() == defines@[k as int]@);
            assert(lines@ =~= before + define_prefix() + defines@[k as int]@ + seq!['\n']);
            k += 1;
        }
        assert(dv.take(k as int) =~= dv);
        let n = source.unicode_len();
        let starts_with_version = n >= 8 && source.get_char(0) == '#' && source.get_char(1) == 'v' && source.get_char(2)
            == 'e' && source.get_char(3) == 'r' && source.get_char(4) == 's' && source.get_char(5) == 'i'
            && source.get_char(6) == 'o' && source.get_char(7) == 'n';
        proof {
            if starts_with_version {
                assert(source@.take(8) =~= version_directive());
            } else if n >= 8 {
                if source@.take(8) == version_directive() {
                    assert(source@.take(8)[0] == source@[0]);
                    assert(source@.take(8)[1] == source@[1]);
                    assert(source@.take(8)[2] == source@[2]);
                    assert(source@.take(8)[3] == source@[3]);
                    assert(source@.take(8)[4] == source@[4]);
                    assert(source@.take(8)[5] == source@[5]);
                    assert(source@.take(8)[6] == source@[6]);
                    assert(source@.take(8)[7] == source@[7]);
                }
            }
        }
        if starts_with_version {
            let mut i: usize = 0;
            while i < n
                invariant
                    i <= n,
                    n == source@.len(),
                    lines@ == define_lines(dv),
                    dv == defines.deep_view(),
                    source@.len() >= 8 && source@.take(8) == version_directive(),
                    forall|j: int| 0 <= j < i ==> source@[j] != '\n',
                decreases n - i,
            {
                if source.get_char(i) == '\n' {
                    let head = source.substring_char(0, i + 1);
                    let tail = source.substring_char(i + 1, n);
                    let mut r = String::from_str(head);
                    r.append(lines.as_str());
                    r.append(tail);
                    proof {
                        assert(is_first_line_end(source@, i as int));
                        let c = choose|c: int| is_first_line_end(source@, c);
                        assert(c == i) by {
                            if c < i {
                                assert(source@[c] != '\n');
                            } else if c > i {
                                assert(source@[i as int] != '\n');
                            }
                        }
                        assert(head@ =~= source@.take(i + 1));
                        assert(tail@ =~= source@.skip(i + 1));
                    }
                    return r;
                }
                i += 1;
            }
            proof {
                assert forall|c: int| !is_first_line_end(source@, c) by {
                    if 0 <= c < source@.len() {
                        assert(source@[c] != '\n');
                    }
                }
            }
        }
        let mut r = lines;
        r.append(source);
        r
    }

    /// The keywords a variant's sources are compiled with: the combination
    /// less the placeholder; `None` when nothing is left.
    pub fn compile_defines(keywords: &Vec<String>) -> (r: Option<Vec<String>>)
        ensures
            defines_of(keywords.deep_view()).len() == 0 ==> r is None,
            defines_of(keywords.deep_view()).len() > 0 ==> r is Some && r->Some_0.deep_view() == defines_of(
                keywords.deep_view(),
            ),
    {
        let ghost kv = keywords.deep_view();
        let mut r: Vec<String> = Vec::new();
        let mut i: usize = 0;
        while i < keywords.len()
            invariant
                i <= keywords@.len(),
                kv == keywords.deep_view(),
                r.deep_view() == defines_of(kv.take(i as int)),
            decreases keywords@.len() - i,
        {
            assert(kv.take(i + 1).drop_last() == kv.take(i as int));
            assert(kv.take(i + 1).last() == keywords@[i as int]@);
            if !is_placeholder(&keywords[i]) {
                let k = keywords[i].clone();
                r.push(k);
                assert(r.deep_view() =~= defines_of(kv.take(i + 1)));
            }
            i += 1;
        }
        assert(kv.take(i as int) == kv);
        if r.len() == 0 {
            None
        } else {
            Some(r)
        }
    }

    /// Registers a shader whose variants the host compiled, one program per
    /// keyword combination in the order of `extract_keyword_set_combinations`;
    /// the default variant is active. Returns the shader's index.
    pub fn create_shader(&mut self, create_info: &ShaderCreateInfo, variant_programs: &Vec<u32>) -> (index: usize)
        requires
            forall|j: int|
                0 <= j < create_info.keyword_sets@.len() ==> (#[trigger] create_info.keyword_sets@[j])@.len() > 0,
            non_placeholder_count(unique_seq(flatten_seq(create_info.keyword_sets.deep_view()))) <= 32,
            variant_programs@.len() == cartesian(create_info.keyword_sets.deep_view()).len(),
        ensures
            index == old(self)@.len(),
            final(self).modules() == old(self).modules(),
            final(self)@.len() == old(self)@.len() + 1,
            forall|i: int| 0 <= i < old(self)@.len() ==> #[trigger] final(self)@[i] == old(self)@[i],
            ({
                let sets = create_info.keyword_sets.deep_view();
                let s = final(self)@[index as int];
                &&& s.name == create_info.name@
                &&& !s.bound
                &&& s.keywords == bitfield_map_for(sets)
                &&& s.variants == variants_for(sets, variant_programs@)
                &&& s.active_variant_bitfield == or_bits(bitfield_map_for(sets), first_keywords(sets))
                &&& s.active_variant == variant_lookup(s.variants, s.active_variant_bitfield)->Some_0
            }),
    {
        let ghost sets = create_info.keyword_sets.deep_view();
        let map = Self::create_keyword_bitfield_map(create_info);
        let combinations = Self::extract_keyword_set_combinations(create_info);
        proof {
            assert forall|j: int| 0 <= j < create_info.keyword_sets@.len() implies lookup_bits(
                map@,
                (#[trigger] create_info.keyword_sets@[j])@[0]@,
            ) is Some by {
                assert(sets[j] == create_info.keyword_sets@[j].deep_view());
                assert(sets[j][0] == create_info.keyword_sets@[j]@[0]@);
                assert(sets[j].contains(sets[j][0]));
                lemma_set_keyword_has_bits(sets, j, sets[j][0]);
            }
        }
        let default_bitfield = Self::default_variant_bitfield(create_info, &map);
        let mut variants: Vec<(u32, u32)> = Vec::new();
        let mut k: usize = 0;
        while k < combinations.len()
            invariant
                k <= combinations@.len(),
                sets == create_info.keyword_sets.deep_view(),
                map@ == bitfield_map_for(sets),
                combinations@.len() == cartesian(sets).len(),
                variant_programs@.len() == cartesian(sets).len(),
                forall|j: int|
                    0 <= j < combinations@.len() ==> (#[trigger] combinations@[j]).deep_view() == unique_seq(
                        cartesian(sets)[j],
                    ),
                variants@ == variants_for(sets, variant_programs@).take(k as int),
            decreases combinations@.len() - k,
        {
            let combination = &combinations[k];
            proof {
                assert forall|i: int| 0 <= i < combination@.len() implies lookup_bits(
                    map@,
                    #[trigger] combination@[i]@,
                ) is Some by {
                    assert(combination.deep_view()[i] == combination@[i]@);
                    assert(unique_seq(cartesian(sets)[k as int]).contains(combination@[i]@));
                    lemma_combination_keywords_have_bits(sets, k as int, combination@[i]@);
                }
            }
            let b = Self::variant_bitfield(combination, &map);
            variants.push((b, variant_programs[k]));
            k += 1;
            assert(variants@ =~= variants_for(sets, variant_programs@).take(k as int));
        }
        assert(variants_for(sets, variant_programs@).take(k as int) =~= variants_for(sets, variant_programs@));
        proof {
            lemma_default_variant_compiled(sets, variant_programs@);
        }
        let shader = Shader::new(create_info.name.clone(), map, variants, default_bitfield);
        let index = self.shaders.len();
        self.shaders.push(shader);
        assert(self@ =~= old(self)@.push(shader@));
        index
    }

    /// The index of the first shader named `name`.
    pub fn find_shader(&self, name: &str) -> (r: Option<usize>)
        ensures
            match r {
                Some(i) => 0 <= i < self@.len() && self@[i as int].name == name@ && forall|j: int|
                    0 <= j < i ==> (#[trigger] self@[j]).name != name@,
                None => forall|j: int| 0 <= j < self@.len() ==> (#[trigger] self@[j]).name != name@,
            },
    {
        let wanted = name.to_string();
        let mut i: usize = 0;
        while i < self.shaders.len()
            invariant
                i <= self@.len(),
                self@.len() == self.shaders@.len(),
                wanted@ == name@,
                forall|j: int| 0 <= j < i ==> (#[trigger] self@[j]).name != name@,
            decreases self.shaders@.len() - i,
        {
            assert(self@[i as int] == self.shaders@[i as int]@);
            if *self.shaders[i].name() == wanted {
                return Some(i);
            }
            i += 1;
        }
        None
    }

    /// The shader at `index`.
    pub fn shader(&self, index: usize) -> (r: &Shader)
        requires
            index < self@.len(),
        ensures
            r@ == self@[index as int],
    {
        &self.shaders[index]
    }

    /// The shader at `index`, for switching its keywords and binding it;
    /// the other shaders stay as they are.
    pub fn shader_mut(&mut self, index: usize) -> (r: &mut Shader)
        requires
            index < old(self)@.len(),
        ensures
            r@ == old(self)@[index as int],
            final(self)@ == old(self)@.update(index as int, final(r)@),
            final(self).modules() == old(self).modules(),
    {
        &mut self.shaders[index]
    }
}

/// The module found for a file name is the one cached last under that name;
/// caching under another name leaves what is found for it unchanged.
pub proof fn lemma_cached_module_found(
    modules: Seq<(Seq<char>, u32)>,
    file_name: Seq<char>,
    module: u32,
    other: Seq<char>,
)
    requires
        other != file_name,
    ensures
        module_lookup(modules.push((file_name, module)), file_name) == Some(module),
        module_lookup(modules.push((file_name, module)), other) == module_lookup(modules, other),
{
    assert(modules.push((file_name, module)).drop_last() =~= modules);
}

} // verus!
