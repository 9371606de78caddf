//! The asset cache: loaded assets kept under their file names.

use vstd::prelude::*;

verus! {

/// The asset cached under `name`: the first entry with that name.
pub open spec fn cached<T>(entries: Seq<(Seq<char>, T)>, name: Seq<char>) -> Option<T>
    decreases entries.len(),
{
    if entries.len() == 0 {
        None
    } else if entries[0].0 == name {
        Some(entries[0].1)
    } else {
        cached(entries.drop_first(), name)
    }
}

/// Assets of one kind, each kept under the file name it was loaded from.
pub struct AssetCache<T> {
    entries: Vec<(String, T)>,
}

impl<T> View for AssetCache<T> {
    type V = Seq<(Seq<char>, T)>;

    closed spec fn view(&self) -> Seq<(Seq<char>, T)> {
        Seq::new(self.entries@.len(), |i: int| (self.entries@[i].0@, self.entries@[i].1))
    }
}

impl<T> AssetCache<T> {
    pub fn new() -> (r: Self)
        ensures
            r@.len() == 0,
    {
        let r = AssetCache { entries: Vec::new() };
        assert(r@ =~= Seq::<(Seq<char>, T)>::empty());
        r
    }

    fn find(&self, name: &String) -> (r: Option<usize>)
        ensures
            match r {
                Some(i) => i < self@.len() && self@[i as int].0 == name@ && cached(self@, name@) == Some(
                    self@[i as int].1,
                ),
                None => cached(self@, name@) is None,
            },
    {
        let mut i: usize = 0;
        assert(self@.skip(0) =~= self@);
        while i < self.entries.len()
            invariant
                i <= self@.len(),
                self@.len() == self.entries@.len(),
                cached(self@.skip(i as int), name@) == cached(self@, name@),
            decreases self.entries@.len() - i,
        {
            let ghost rest = self@.skip(i as int);
            assert(rest[0] == (self.entries@[i as int].0@, self.entries@[i as int].1));
            assert(rest.drop_first() == self@.skip(i + 1));
            if self.entries[i].0 == *name {
                return Some(i);
            }
            i += 1;
        }
        assert(self@.skip(i as int).len() == 0);
        None
    }

    /// Keeps `asset` under `name` unless an asset is cached under that name
    /// already, which then stays.
    pub fn insert_if_absent(&mut self, name: String, asset: T)
        ensures
            cached(old(self)@, name@) is Some ==> final(self)@ == old(self)@,
            cached(old(self)@, name@) is None ==> final(self)@ == old(self)@.push((name@, asset)),
    {
        match self.find(&name) {
            Some(_) => {},
            None => {
                self.entries.push((name, asset));
                assert(self@ =~= old(self)@.push((name@, asset)));
            },
        }
    }

    /// The asset cached under `name`.
    pub fn get(&self, name: &str) -> (r: Option<&T>)
        ensures
            match r {
                Some(a) => cached(self@, name@) == Some(*a),
                None => cached(self@, name@) is None,
            },
    {
        let key = name.to_string();
        match self.find(&key) {
            Some(i) => Some(&self.entries[i].1),
            None => None,
        }
    }
}

/// A cached asset can be found again, and caching under a used name keeps
/// the first asset.
pub proof fn lemma_cache_keeps_first<T>(entries: Seq<(Seq<char>, T)>, name: Seq<char>, asset: T)
    ensures
        cached(entries, name) is None ==> cached(entries.push((name, asset)), name) == Some(asset),
        cached(entries, name) is Some ==> cached(entries.push((name, asset)), name) == cached(entries, name),
    decreases entries.len(),
{
    let pushed = entries.push((name, asset));
    if entries.len() == 0 {
        assert(pushed[0] == (name, asset));
    } else {
        assert(pushed[0] == entries[0]);
        assert(pushed.drop_first() == entries.drop_first().push((name, asset)));
        lemma_cache_keeps_first(entries.drop_first(), name, asset);
    }
}

/// The error for a path that names no file.
pub fn invalid_path_message() -> (s: String)
    ensures
        s@ == "Invalid file path."@,
{
    String::from_str("Invalid file path.")
}

/// The asset caches of the engine: 2D textures, cube maps, meshes and
/// shaders, each kept under its file name.
pub struct AssetManager<Tex, Cube, Mesh, Shader> {
    pub textures: AssetCache<Tex>,
    pub cube_maps: AssetCache<Cube>,
    pub meshes: AssetCache<Mesh>,
    pub shaders: AssetCache<Shader>,
}

impl<Tex, Cube, Mesh, Shader> AssetManager<Tex, Cube, Mesh, Shader> {
    /// Empty caches.
    pub fn new() -> (r: Self)
        ensures
            r.textures@.len() == 0,
            r.cube_maps@.len() == 0,
            r.meshes@.len() == 0,
            r.shaders@.len() == 0,
    {
        AssetManager {
            textures: AssetCache::new(),
            cube_maps: AssetCache::new(),
            meshes: AssetCache::new(),
            shaders: AssetCache::new(),
        }
    }

    /// The cached 2D texture loaded from the file `name`.
    pub fn get_texture_2d(&self, name: &str) -> (r: Option<&Tex>)
        ensures
            match r {
                Some(a) => cached(self.textures@, name@) == Some(*a),
                None => cached(self.textures@, name@) is None,
            },
    {
        self.textures.get(name)
    }

    /// The cached cube map loaded from the file `name`.
    pub fn get_texture_cube(&self, name: &str) -> (r: Option<&Cube>)
        ensures
            match r {
                Some(a) => cached(self.cube_maps@, name@) == Some(*a),
                None => cached(self.cube_maps@, name@) is None,
            },
    {
        self.cube_maps.get(name)
    }

    /// The cached mesh loaded from the file `name`.
    pub fn get_mesh(&self, name: &str) -> (r: Option<&Mesh>)
        ensures
            match r {
                Some(a) => cached(self.meshes@, name@) == Some(*a),
                None => cached(self.meshes@, name@) is None,
            },
    {
        self.meshes.get(name)
    }
}

} // verus!
