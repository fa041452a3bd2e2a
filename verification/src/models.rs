use vstd::prelude::*;
use vstd::string::StrSliceExecFns;
use crate::err::RenderError;
use crate::handle::HandleAllocator;
use crate::namemap::NameMap;
use crate::preprocess::{after_line, lemma_line_len_at, lemma_line_len_bounds, line_len};

verus! {

/// A model to load: the file that holds it and the model's name within that
/// file.
#[derive(Clone, PartialEq, Eq, Debug)]
pub struct ModelName {
    pub file: String,
    pub name: String,
}

/// The attribute counts of one parsed mesh.
#[derive(Clone, Copy, PartialEq, Eq, Structural, Debug)]
pub struct MeshCounts {
    pub index_count: usize,
    pub position_count: usize,
    pub normal_count: usize,
    pub texcoord_count: usize,
}

impl MeshCounts {
    pub fn of(index_count: usize, position_count: usize, normal_count: usize,
        texcoord_count: usize) -> (r: Self)
        ensures
            r == (MeshCounts { index_count, position_count, normal_count, texcoord_count }),
    {
        MeshCounts { index_count, position_count, normal_count, texcoord_count }
    }
}

/// A character that could separate words: anything outside the ASCII
/// graphic range. Every Unicode whitespace character lies outside it, so
/// this over-approximates the separators the parser splits words on.
pub open spec fn spec_possible_space(c: char) -> bool {
    !(0x21 <= c as u32 && c as u32 <= 0x7e)
}

pub open spec fn spec_digit(c: char) -> bool {
    0x30 <= c as u32 && c as u32 <= 0x39
}

/// Over-approximates the lines the OBJ parser reads face elements from:
/// an `f` or `l` stands as the line's first word, up to word separators.
pub open spec fn spec_element_line(line: Seq<char>) -> bool {
    exists|i: int| 0 <= i < line.len()
        && ((#[trigger] line[i]) == 'f' || line[i] == 'l')
        && (forall|j: int| 0 <= j < i ==> spec_possible_space(#[trigger] line[j]))
        && (i + 1 == line.len() || spec_possible_space(line[i + 1]))
}

pub open spec fn spec_all_digits(s: Seq<char>) -> bool {
    forall|j: int| 0 <= j < s.len() ==> spec_digit(#[trigger] s[j])
}

/// A face line the parser indexes safely: no `-` (no relative indices) and
/// no run of ten digits (no index so large that the parser's index
/// arithmetic leaves the machine's range).
pub open spec fn spec_plain_element_line(line: Seq<char>) -> bool {
    &&& forall|i: int| 0 <= i < line.len() ==> (#[trigger] line[i]) != '-'
    &&& forall|i: int| 0 <= i && i + 10 <= line.len()
        ==> !spec_all_digits(#[trigger] line.subrange(i, i + 10))
}

/// Every face line of the text is plain, line by line.
pub open spec fn spec_obj_text_safe(s: Seq<char>) -> bool
    decreases s.len(),
    via spec_obj_text_safe_decreases
{
    if s.len() == 0 {
        true
    } else {
        (spec_element_line(s.take(line_len(s)))
            ==> spec_plain_element_line(s.take(line_len(s))))
        && spec_obj_text_safe(after_line(s))
    }
}

#[via_fn]
proof fn spec_obj_text_safe_decreases(s: Seq<char>) {
    lemma_line_len_bounds(s);
}

/// Whether this line is one the OBJ parser would read face elements from.
fn is_element_line(line: &str) -> (r: bool)
    ensures
        r == spec_element_line(line@),
{
    let n = line.unicode_len();
    let mut k: usize = 0;
    loop
        invariant_except_break
            k <= n,
            n as nat == line@.len(),
            forall|j: int| 0 <= j < k ==> spec_possible_space(#[trigger] line@[j]),
        ensures
            k <= n,
            n as nat == line@.len(),
            forall|j: int| 0 <= j < k ==> spec_possible_space(#[trigger] line@[j]),
            k == n || !spec_possible_space(line@[k as int]),
        decreases n - k,
    {
        if k == n {
            break;
        }
        let c = line.get_char(k);
        if (c as u32) >= 0x21 && (c as u32) <= 0x7e {
            break;
        }
        k += 1;
    }
    if k == n {
        proof {
            assert forall|i: int| 0 <= i < line@.len()
                implies !((#[trigger] line@[i]) == 'f' || line@[i] == 'l')
                    || !(forall|j: int| 0 <= j < i
                        ==> spec_possible_space(#[trigger] line@[j])) by {
                assert(!spec_possible_space('f'));
                assert(!spec_possible_space('l'));
            }
        }
        return false;
    }
    let c = line.get_char(k);
    let r = (c == 'f' || c == 'l')
        && (k + 1 == n || {
            let d = line.get_char(k + 1);
            !((d as u32) >= 0x21 && (d as u32) <= 0x7e)
        });
    proof {
        assert(!spec_possible_space('f'));
        assert(!spec_possible_space('l'));
        if r {
            assert(spec_element_line(line@));
        } else if spec_element_line(line@) {
            let i = choose|i: int| 0 <= i < line@.len()
                && ((#[trigger] line@[i]) == 'f' || line@[i] == 'l')
                && (forall|j: int| 0 <= j < i ==> spec_possible_space(#[trigger] line@[j]))
                && (i + 1 == line@.len() || spec_possible_space(line@[i + 1]));
            assert(i >= k);
            assert(i <= k) by {
                if i > k {
                    assert(spec_possible_space(line@[k as int]));
                }
            }
        }
    }
    r
}

/// Whether this face line is plain: no `-`, no run of ten digits.
fn is_plain_element_line(line: &str) -> (r: bool)
    ensures
        r == spec_plain_element_line(line@),
{
    let n = line.unicode_len();
    let mut i: usize = 0;
    let mut run: usize = 0;
    while i < n
        invariant
            i <= n,
            run <= i,
            run < 10,
            n as nat == line@.len(),
            forall|j: int| 0 <= j < i ==> (#[trigger] line@[j]) != '-',
            forall|j: int| i - run <= j < i ==> spec_digit(#[trigger] line@[j]),
            i - run - 1 >= 0 ==> !spec_digit(line@[i - run - 1]),
            forall|j: int| 0 <= j && j + 10 <= i
                ==> !spec_all_digits(#[trigger] line@.subrange(j, j + 10)),
        decreases n - i,
    {
        let c = line.get_char(i);
        if c == '-' {
            return false;
        }
        if (c as u32) >= 0x30 && (c as u32) <= 0x39 {
            run += 1;
            if run == 10 {
                proof {
                    let w = i - 9;
                    assert forall|j2: int| 0 <= j2 < 10
                        implies spec_digit(#[trigger] line@.subrange(w, w + 10)[j2]) by {
                        assert(line@.subrange(w, w + 10)[j2] == line@[w + j2]);
                    }
                    assert(spec_all_digits(line@.subrange(w, w + 10)));
                    assert(0 <= w && w + 10 <= line@.len());
                }
                return false;
            }
        } else {
            run = 0;
        }
        proof {
            assert forall|j: int| 0 <= j && j + 10 <= i + 1
                implies !spec_all_digits(#[trigger] line@.subrange(j, j + 10)) by {
                if j + 10 == i + 1 {
                    let p = i - run;
                    assert(!spec_digit(line@[p]));
                    assert(j <= p < j + 10);
                    if spec_all_digits(line@.subrange(j, j + 10)) {
                        assert(spec_digit(line@.subrange(j, j + 10)[p - j]));
                        assert(line@.subrange(j, j + 10)[p - j] == line@[p]);
                    }
                }
            }
        }
        i += 1;
    }
    true
}

/// Whether every face line of the text is plain, so the parser's index
/// arithmetic stays in range.
pub fn obj_text_safe(text: &str) -> (r: bool)
    ensures
        r == spec_obj_text_safe(text@),
    decreases text@.len(),
{
    let n = text.unicode_len();
    if n == 0 {
        return true;
    }
    let mut ll: usize = 0;
    loop
        invariant_except_break
            ll <= n,
            n as nat == text@.len(),
            forall|j: int| 0 <= j < ll ==> text@[j] != '\n',
        ensures
            ll <= n,
            n as nat == text@.len(),
            forall|j: int| 0 <= j < ll ==> text@[j] != '\n',
            ll == n || text@[ll as int] == '\n',
        decreases n - ll,
    {
        if ll == n {
            break;
        }
        if text.get_char(ll) == '\n' {
            break;
        }
        ll += 1;
    }
    proof {
        lemma_line_len_at(text@, ll as int);
    }
    let line = text.substring_char(0, ll);
    let rest = if ll < n {
        text.substring_char(ll + 1, n)
    } else {
        text.substring_char(ll, n)
    };
    proof {
        assert(line@ =~= text@.take(line_len(text@)));
        assert(rest@ =~= after_line(text@));
    }
    if is_element_line(line) && !is_plain_element_line(line) {
        return false;
    }
    obj_text_safe(rest)
}

/// The named meshes the OBJ parser finds in the given text, in file order,
/// each with its attribute counts; `None` when the text parses as no OBJ
/// file. The result depends on the text alone.
pub uninterp spec fn obj_models(data: Seq<char>) -> Option<Seq<(Seq<char>, MeshCounts)>>;

/// Relies on tobj::load_obj_buf: parses OBJ text into named meshes with one
/// index stream per mesh; the result depends on the text alone. Referenced
/// material libraries are not loaded. The safety precondition keeps every
/// face index the parser sees small and non-negative, because its index
/// arithmetic on texture-coordinate and normal indices is unchecked and a
/// relative (negative) or ten-digit index could take it out of the
/// machine's range.
#[verifier::external_body]
fn parse_obj(data: &str) -> (r: Result<Vec<(String, MeshCounts)>, String>)
    requires
        spec_obj_text_safe(data@),
    ensures
        match r {
            Ok(v) => obj_models(data@) matches Some(s) && s.len() == v@.len()
                && forall|i: int| 0 <= i < v@.len()
                    ==> s[i].0 == v@[i].0@ && s[i].1 == v@[i].1,
            Err(_) => obj_models(data@) is None,
        },
{
    let mut reader = std::io::Cursor::new(data.as_bytes());
    let opts = tobj::LoadOptions { single_index: true, ..Default::default() };
    match tobj::load_obj_buf(&mut reader, &opts, |_p| Err(tobj::LoadError::OpenFileFailed)) {
        Ok((models, _materials)) => Ok(models.into_iter().map(|m| (m.name, MeshCounts::of(
            m.mesh.indices.len(), m.mesh.positions.len(),
            m.mesh.normals.len(), m.mesh.texcoords.len()))).collect()),
        Err(e) => Err(format!("{}", e)),
    }
}

/// An uploaded model: the number of indices to draw and the live vertex and
/// index buffers, with normal and texture-coordinate buffers only where the
/// source data has those attributes.
pub struct ModelCacheEntry {
    pub vertex_ct: u32,
    pub positions: u64,
    pub indices: u64,
    pub material: Option<String>,
    pub normals: Option<u64>,
    pub texcoords: Option<u64>,
}

/// A caller's view of a cached model.
#[derive(Clone, Copy, PartialEq, Eq, Debug)]
pub struct ModelRef {
    pub vertex_ct: u32,
    pub positions: u64,
    pub indices: u64,
    pub normals: Option<u64>,
    pub texcoords: Option<u64>,
}

pub open spec fn spec_model_ref(e: ModelCacheEntry) -> ModelRef {
    ModelRef {
        vertex_ct: e.vertex_ct,
        positions: e.positions,
        indices: e.indices,
        normals: e.normals,
        texcoords: e.texcoords,
    }
}

/// The entry registered for a mesh with the given counts: the draw count is
/// the index count, and optional attribute buffers exist exactly where the
/// source data has the attribute.
pub open spec fn model_entry_matches(e: ModelCacheEntry, c: MeshCounts) -> bool {
    &&& e.vertex_ct == c.index_count as u32
    &&& (e.normals is Some <==> c.normal_count > 0)
    &&& (e.texcoords is Some <==> c.texcoord_count > 0)
    &&& e.material is None
}

/// A reason a model-file load failed, at the level of the mathematical
/// model.
pub enum ModelIssue {
    NotFound { file: Seq<char> },
    ParseFailed { file: Seq<char> },
}

pub open spec fn model_issue_matches_error(issue: ModelIssue, e: RenderError) -> bool {
    match issue {
        ModelIssue::NotFound { file } =>
            e matches RenderError::NotFound { name: en } && en@ == file,
        ModelIssue::ParseFailed { file } =>
            e matches RenderError::ParseFailed { name: en } && en@ == file,
    }
}

/// What parsing the named model file must yield. A text with relative
/// (negative) or ten-digit face indices is rejected as a parse failure
/// before the parser runs: the renderer does not support relative indexing.
pub open spec fn spec_model_build(files: Map<Seq<char>, String>, file: Seq<char>)
    -> Result<Seq<(Seq<char>, MeshCounts)>, ModelIssue>
{
    if !files.contains_key(file) {
        Err(ModelIssue::NotFound { file })
    } else if !spec_obj_text_safe(files[file]@) {
        Err(ModelIssue::ParseFailed { file })
    } else {
        match obj_models(files[file]@) {
            None => Err(ModelIssue::ParseFailed { file }),
            Some(s) => Ok(s),
        }
    }
}

/// Whether some parsed mesh carries the given name.
pub open spec fn mesh_named(s: Seq<(Seq<char>, MeshCounts)>, name: Seq<char>) -> bool {
    exists|j: int| 0 <= j < s.len() && s[j].0 == name
}

/// Whether the name list carries the given name.
pub open spec fn listed_name(list: Vec<String>, k: Seq<char>) -> bool {
    exists|j: int| 0 <= j < list@.len() && list@[j]@ == k
}

/// Whether one of the first `i` names of the list is the given name.
pub open spec fn listed_prefix(list: Vec<String>, i: int, k: Seq<char>) -> bool {
    exists|j: int| 0 <= j < i && list@[j]@ == k
}

/// The name list records exactly the parsed meshes' names, in order.
pub open spec fn manifest_matches(list: Vec<String>, s: Seq<(Seq<char>, MeshCounts)>) -> bool {
    list@.len() == s.len() && forall|j: int| 0 <= j < s.len() ==> (#[trigger] list@[j])@ == s[j].0
}

/// The entry registered under the `j`th parsed mesh's name matches the
/// counts of some parsed mesh of that same name.
pub open spec fn mesh_entry_ok(
    new: Map<Seq<char>, ModelCacheEntry>,
    s: Seq<(Seq<char>, MeshCounts)>,
    j: int,
) -> bool {
    exists|j2: int| 0 <= j2 < s.len() && s[j2].0 == s[j].0
        && model_entry_matches(new[s[j].0], s[j2].1)
}

/// How a finished file load relates the new entry map to the old one: every
/// parsed mesh's name is registered with an entry matching one of its
/// occurrences' counts, and every other name is untouched.
pub open spec fn models_registered(
    new: Map<Seq<char>, ModelCacheEntry>,
    before: Map<Seq<char>, ModelCacheEntry>,
    s: Seq<(Seq<char>, MeshCounts)>,
) -> bool {
    &&& forall|j: int| 0 <= j < s.len() ==> new.contains_key(#[trigger] s[j].0)
    &&& forall|j: int| 0 <= j < s.len() ==> #[trigger] mesh_entry_ok(new, s, j)
    &&& forall|k: Seq<char>| !mesh_named(s, k) ==> {
        &&& (#[trigger] new.contains_key(k) <==> before.contains_key(k))
        &&& (before.contains_key(k) ==> new[k] == before[k])
    }
}

/// How one `ModelCache::load` call relates the state after to the state
/// before. On a file already loaded, nothing changes and the named model is
/// looked up. On a fresh file, a successful parse registers every model of
/// the file and then marks the file loaded, all visible together; the named
/// model is then looked up. Parse failure, a missing file, or exhausted
/// identifier headroom changes nothing.
pub open spec fn model_load_post(
    pre: ModelCache,
    pre_alloc: HandleAllocator,
    files: Map<Seq<char>, String>,
    name: ModelName,
    post: ModelCache,
    post_alloc: HandleAllocator,
    r: Result<ModelRef, RenderError>,
) -> bool {
    &&& pre.known_files().contains(name.file@) ==> {
        &&& post == pre
        &&& post_alloc == pre_alloc
        &&& match r {
            Ok(mr) => pre.entries().contains_key(name.name@)
                && mr == spec_model_ref(pre.entries()[name.name@]),
            Err(e) => !pre.entries().contains_key(name.name@)
                && (e matches RenderError::ModelMissing { file, name: mn }
                    && file@ == name.file@ && mn@ == name.name@),
        }
    }
    &&& !pre.known_files().contains(name.file@) ==>
        match spec_model_build(files, name.file@) {
            Ok(s) => {
                if pre_alloc.can_issue(4 * s.len() as int) {
                    &&& post.known_files() == pre.known_files().insert(name.file@)
                    &&& post.manifest() == pre.manifest().insert(
                        name.file@, post.manifest()[name.file@])
                    &&& post.manifest().contains_key(name.file@)
                    &&& manifest_matches(post.manifest()[name.file@], s)
                    &&& post.spec_loads() == pre.spec_loads() + 1
                    &&& models_registered(post.entries(), pre.entries(), s)
                    &&& post_alloc.spec_next() >= pre_alloc.spec_next()
                    &&& post_alloc.spec_next() <= pre_alloc.spec_next() + 4 * s.len()
                    &&& match r {
                        Ok(mr) => post.entries().contains_key(name.name@)
                            && mr == spec_model_ref(post.entries()[name.name@])
                            && (mesh_named(s, name.name@)
                                || pre.entries().contains_key(name.name@)),
                        Err(e) => !mesh_named(s, name.name@)
                            && !pre.entries().contains_key(name.name@)
                            && (e matches RenderError::ModelMissing { file, name: mn }
                                && file@ == name.file@ && mn@ == name.name@),
                    }
                } else {
                    &&& (r matches Err(e) && e matches RenderError::OutOfHandles)
                    &&& post == pre
                    &&& post_alloc == pre_alloc
                }
            },
            Err(issue) => {
                &&& r matches Err(e) && model_issue_matches_error(issue, e)
                &&& post == pre
                &&& post_alloc == pre_alloc
            },
        }
}

/// Parses model files into per-mesh vertex and index buffers, multi-keyed by
/// the model names the file contains.
///
/// A single file load registers every model the file holds before the file
/// is marked loaded, so the models of one file become visible together.
/// `spec_loads` is the load-count instrumentation: it counts actual
/// parse-and-upload operations performed.
pub struct ModelCache {
    known_files: NameMap<Vec<String>>,
    obj_cache: NameMap<ModelCacheEntry>,
    load_count: u64,
}

impl ModelCache {
    /// The set of files whose models have all been registered.
    pub closed spec fn known_files(&self) -> Set<Seq<char>> {
        self.known_files@.dom()
    }

    pub closed spec fn entries(&self) -> Map<Seq<char>, ModelCacheEntry> {
        self.obj_cache@
    }

    /// For each loaded file, the model names its load registered.
    pub closed spec fn manifest(&self) -> Map<Seq<char>, Vec<String>> {
        self.known_files@
    }

    pub closed spec fn spec_loads(&self) -> u64 {
        self.load_count
    }

    pub fn new() -> (r: Self)
        ensures
            r.known_files() == Set::<Seq<char>>::empty(),
            r.entries() == Map::<Seq<char>, ModelCacheEntry>::empty(),
            r.spec_loads() == 0,
    {
        ModelCache { known_files: NameMap::new(), obj_cache: NameMap::new(), load_count: 0 }
    }

    /// The load-count instrumentation: how many parse-and-uploads have run.
    pub fn loads(&self) -> (r: u64)
        ensures
            r == self.spec_loads(),
    {
        self.load_count
    }

    /// Look at a cached model without loading anything.
    pub fn get<'a>(&'a self, name: &str) -> (r: Option<&'a ModelCacheEntry>)
        ensures
            match r {
                Some(e) => self.entries().contains_key(name@) && *e == self.entries()[name@],
                None => !self.entries().contains_key(name@),
            },
    {
        self.obj_cache.get(name)
    }

    /// Whether the file's models have all been registered.
    pub fn file_loaded(&self, file: &str) -> (r: bool)
        ensures
            r == self.known_files().contains(file@),
    {
        self.known_files.contains(file)
    }

    /// Load a model by file and name. If the file was loaded before, this
    /// only looks the name up. Otherwise it parses the file and registers
    /// every model found in it, then marks the file loaded, then looks the
    /// name up; a name the file does not contain is an error either way.
    #[verifier::rlimit(100)]
    pub fn load(&mut self, alloc: &mut HandleAllocator, files: &NameMap<String>,
        name: &ModelName) -> (r: Result<ModelRef, RenderError>)
        requires
            old(self).spec_loads() < u64::MAX,
        ensures
            model_load_post(*old(self), *old(alloc), files@, *name,
                *final(self), *final(alloc), r),
    {
        if self.known_files.contains(name.file.as_str()) {
            return match self.obj_cache.get(name.name.as_str()) {
                Some(e) => Ok(ModelRef {
                    vertex_ct: e.vertex_ct,
                    positions: e.positions,
                    indices: e.indices,
                    normals: e.normals,
                    texcoords: e.texcoords,
                }),
                None => Err(RenderError::ModelMissing {
                    file: name.file.as_str().to_owned(),
                    name: name.name.as_str().to_owned(),
                }),
            };
        }
        let text = match files.get(name.file.as_str()) {
            None => {
                return Err(RenderError::NotFound { name: name.file.as_str().to_owned() });
            },
            Some(t) => t,
        };
        if !obj_text_safe(text.as_str()) {
            return Err(RenderError::ParseFailed { name: name.file.as_str().to_owned() });
        }
        let models = match parse_obj(text.as_str()) {
            Ok(ms) => ms,
            Err(_diag) => {
                return Err(RenderError::ParseFailed { name: name.file.as_str().to_owned() });
            },
        };
        let ghost s = obj_models(files@[name.file@]@)->Some_0;
        let n = models.len();
        if !alloc.has_headroom(n as u64, 4) {
            return Err(RenderError::OutOfHandles);
        }
        let ghost entries0 = self.obj_cache@;
        let ghost next0 = alloc.spec_next();
        let mut reg_names: Vec<String> = Vec::new();
        let mut i: usize = 0;
        while i < n
            invariant
                i <= n,
                n == models@.len(),
                s.len() == models@.len(),
                forall|j: int| 0 <= j < models@.len()
                    ==> s[j].0 == models@[j].0@ && s[j].1 == models@[j].1,
                reg_names@.len() == i,
                forall|j: int| 0 <= j < i ==> (#[trigger] reg_names@[j])@ == s[j].0,
                alloc.spec_next() >= old(alloc).spec_next(),
                alloc.spec_next() <= next0 + 4 * i,
                next0 == old(alloc).spec_next(),
                alloc.spec_next() + 4 * (n - i) <= u64::MAX,
                forall|j: int| 0 <= j < i ==> self.obj_cache@.contains_key(#[trigger] s[j].0),
                forall|j: int| 0 <= j < i ==> #[trigger] mesh_entry_ok(self.obj_cache@, s, j),
                forall|k: Seq<char>| #![trigger has_named_prefix(s, i as int, k)]
                    !has_named_prefix(s, i as int, k) ==> {
                    &&& (self.obj_cache@.contains_key(k) <==> entries0.contains_key(k))
                    &&& (entries0.contains_key(k) ==> self.obj_cache@[k] == entries0[k])
                },
                self.known_files@ == old(self).known_files@,
                self.load_count == old(self).load_count,
            decreases n - i,
        {
            let c = models[i].1;
            let positions = alloc.issue();
            let indices = alloc.issue();
            let normals = if c.normal_count > 0 { Some(alloc.issue()) } else { None };
            let texcoords = if c.texcoord_count > 0 { Some(alloc.issue()) } else { None };
            let entry = ModelCacheEntry {
                vertex_ct: #[verifier::truncate] (c.index_count as u32),
                positions,
                indices,
                material: None,
                normals,
                texcoords,
            };
            let ghost m_prev = self.obj_cache@;
            let ghost key = s[i as int].0;
            proof {
                assert(model_entry_matches(entry, s[i as int].1));
            }
            reg_names.push(models[i].0.as_str().to_owned());
            self.obj_cache.insert(models[i].0.as_str().to_owned(), entry);
            proof {
                let m_new = self.obj_cache@;
                assert(m_new == m_prev.insert(key, entry));
                assert forall|j: int| 0 <= j < i + 1
                    implies m_new.contains_key(#[trigger] s[j].0) by {
                    if s[j].0 != key {
                        assert(m_prev.contains_key(s[j].0));
                    }
                }
                assert forall|j: int| 0 <= j < i + 1
                    implies #[trigger] mesh_entry_ok(m_new, s, j) by {
                    if s[j].0 == key {
                        assert(0 <= i < s.len() && s[i as int].0 == s[j].0
                            && model_entry_matches(m_new[s[j].0], s[i as int].1));
                    } else {
                        assert(mesh_entry_ok(m_prev, s, j));
                        let j2 = choose|j2: int| 0 <= j2 < s.len() && s[j2].0 == s[j].0
                            && model_entry_matches(m_prev[s[j].0], s[j2].1);
                        assert(m_new[s[j].0] == m_prev[s[j].0]);
                        assert(0 <= j2 < s.len() && s[j2].0 == s[j].0
                            && model_entry_matches(m_new[s[j].0], s[j2].1));
                    }
                }
                assert forall|k: Seq<char>| #![trigger has_named_prefix(s, i + 1, k)]
                    !has_named_prefix(s, i + 1, k) implies {
                    &&& (m_new.contains_key(k) <==> entries0.contains_key(k))
                    &&& (entries0.contains_key(k) ==> m_new[k] == entries0[k])
                } by {
                    assert(!has_named_prefix(s, i as int, k)) by {
                        if has_named_prefix(s, i as int, k) {
                            let j = choose|j: int| 0 <= j < i && s[j].0 == k;
                            assert(0 <= j < i + 1 && s[j].0 == k);
                        }
                    }
                    assert(k != key) by {
                        if k == key {
                            assert(0 <= i < i + 1 && s[i as int].0 == k);
                        }
                    }
                }
            }
            i += 1;
        }
        proof {
            let m_fin = self.obj_cache@;
            assert forall|k: Seq<char>| !mesh_named(s, k) implies {
                &&& (#[trigger] m_fin.contains_key(k) <==> entries0.contains_key(k))
                &&& (entries0.contains_key(k) ==> m_fin[k] == entries0[k])
            } by {
                assert(!has_named_prefix(s, i as int, k)) by {
                    if has_named_prefix(s, i as int, k) {
                        let j = choose|j: int| 0 <= j < i && s[j].0 == k;
                        assert(0 <= j < s.len() && s[j].0 == k);
                        assert(mesh_named(s, k));
                    }
                }
                assert((self.obj_cache@.contains_key(k) <==> entries0.contains_key(k))
                    && (entries0.contains_key(k) ==> self.obj_cache@[k] == entries0[k]));
            }
            assert(models_registered(m_fin, entries0, s));
        }
        proof {
            assert(manifest_matches(reg_names, s));
        }
        self.known_files.insert(name.file.as_str().to_owned(), reg_names);
        self.load_count = self.load_count + 1;
        proof {
            assert(self.known_files@.dom() =~= old(self).known_files@.dom().insert(name.file@));
        }
        proof {
            if mesh_named(s, name.name@) {
                let j = choose|j: int| 0 <= j < s.len() && s[j].0 == name.name@;
                assert(self.obj_cache@.contains_key(s[j].0));
            } else {
                assert(self.obj_cache@.contains_key(name.name@)
                    <==> entries0.contains_key(name.name@));
            }
        }
        match self.obj_cache.get(name.name.as_str()) {
            Some(e) => Ok(ModelRef {
                vertex_ct: e.vertex_ct,
                positions: e.positions,
                indices: e.indices,
                normals: e.normals,
                texcoords: e.texcoords,
            }),
            None => Err(RenderError::ModelMissing {
                file: name.file.as_str().to_owned(),
                name: name.name.as_str().to_owned(),
            }),
        }
    }

    /// Forget that a file was loaded and drop every model its load
    /// registered, so the next load of that file parses afresh and no stale
    /// model outlives its file. A name registered by another file is
    /// untouched unless this file's load had shadowed it.
    pub fn invalidate(&mut self, name: &ModelName)
        ensures
            final(self).known_files() == old(self).known_files().remove(name.file@),
            final(self).spec_loads() == old(self).spec_loads(),
            !old(self).known_files().contains(name.file@)
                ==> final(self).entries() == old(self).entries(),
            old(self).known_files().contains(name.file@) ==> {
                let listed = old(self).manifest()[name.file@];
                &&& forall|k: Seq<char>| #![trigger listed_name(listed, k)]
                    listed_name(listed, k) ==> !final(self).entries().contains_key(k)
                &&& forall|k: Seq<char>| #![trigger listed_name(listed, k)]
                    !listed_name(listed, k) ==> {
                    &&& (final(self).entries().contains_key(k)
                        <==> old(self).entries().contains_key(k))
                    &&& (old(self).entries().contains_key(k)
                        ==> final(self).entries()[k] == old(self).entries()[k])
                }
            },
    {
        let listed: Vec<String> = match self.known_files.get(name.file.as_str()) {
            None => {
                self.known_files.remove(name.file.as_str());
                proof {
                    assert(self.known_files@.dom()
                        =~= old(self).known_files@.dom().remove(name.file@));
                }
                return;
            },
            Some(l) => {
                let mut copy: Vec<String> = Vec::new();
                let m = l.len();
                let mut i: usize = 0;
                while i < m
                    invariant
                        i <= m,
                        m == l@.len(),
                        copy@.len() == i,
                        forall|j: int| 0 <= j < i
                            ==> (#[trigger] copy@[j])@ == l@[j]@,
                    decreases m - i,
                {
                    copy.push(l[i].as_str().to_owned());
                    i += 1;
                }
                copy
            },
        };
        let ghost list0 = old(self).manifest()[name.file@];
        proof {
            assert(listed@.len() == list0@.len());
        }
        self.known_files.remove(name.file.as_str());
        proof {
            assert(self.known_files@.dom()
                =~= old(self).known_files@.dom().remove(name.file@));
        }
        let ghost entries0 = self.obj_cache@;
        let n = listed.len();
        let mut i: usize = 0;
        while i < n
            invariant
                i <= n,
                n == listed@.len(),
                listed@.len() == list0@.len(),
                forall|j: int| 0 <= j < n ==> (#[trigger] listed@[j])@ == list0@[j]@,
                forall|k: Seq<char>| #![trigger listed_prefix(list0, i as int, k)]
                    listed_prefix(list0, i as int, k)
                        ==> !self.obj_cache@.contains_key(k),
                forall|k: Seq<char>| #![trigger listed_prefix(list0, i as int, k)]
                    !listed_prefix(list0, i as int, k) ==> {
                    &&& (self.obj_cache@.contains_key(k) <==> entries0.contains_key(k))
                    &&& (entries0.contains_key(k) ==> self.obj_cache@[k] == entries0[k])
                },
                self.known_files@ == old(self).known_files@.remove(name.file@),
                self.load_count == old(self).load_count,
            decreases n - i,
        {
            let ghost m_prev = self.obj_cache@;
            let ghost key = list0@[i as int]@;
            self.obj_cache.remove(listed[i].as_str());
            proof {
                let m_new = self.obj_cache@;
                assert(m_new == m_prev.remove(key));
                assert forall|k: Seq<char>| #![trigger listed_prefix(list0, i + 1, k)]
                    listed_prefix(list0, i + 1, k)
                        implies !m_new.contains_key(k) by {
                    if k == key {
                    } else {
                        assert(listed_prefix(list0, i as int, k)) by {
                            let j = choose|j: int| 0 <= j < i + 1 && list0@[j]@ == k;
                            assert(j < i && 0 <= j < i && list0@[j]@ == k);
                        }
                    }
                }
                assert forall|k: Seq<char>| #![trigger listed_prefix(list0, i + 1, k)]
                    !listed_prefix(list0, i + 1, k) implies {
                    &&& (m_new.contains_key(k) <==> entries0.contains_key(k))
                    &&& (entries0.contains_key(k) ==> m_new[k] == entries0[k])
                } by {
                    assert(!listed_prefix(list0, i as int, k)) by {
                        if listed_prefix(list0, i as int, k) {
                            let j = choose|j: int| 0 <= j < i && list0@[j]@ == k;
                            assert(0 <= j < i + 1 && list0@[j]@ == k);
                        }
                    }
                    assert(k != key) by {
                        if k == key {
                            assert(0 <= i < i + 1 && list0@[i as int]@ == k);
                        }
                    }
                }
            }
            i += 1;
        }
        proof {
            assert forall|k: Seq<char>| #![trigger listed_name(list0, k)]
                listed_name(list0, k) implies !self.obj_cache@.contains_key(k) by {
                assert(listed_prefix(list0, i as int, k)) by {
                    let j = choose|j: int| 0 <= j < list0@.len() && list0@[j]@ == k;
                    assert(0 <= j < i && list0@[j]@ == k);
                }
            }
            assert forall|k: Seq<char>| #![trigger listed_name(list0, k)]
                !listed_name(list0, k) implies {
                &&& (self.obj_cache@.contains_key(k) <==> entries0.contains_key(k))
                &&& (entries0.contains_key(k) ==> self.obj_cache@[k] == entries0[k])
            } by {
                assert(!listed_prefix(list0, i as int, k)) by {
                    if listed_prefix(list0, i as int, k) {
                        let j = choose|j: int| 0 <= j < i && list0@[j]@ == k;
                        assert(0 <= j < list0@.len() && list0@[j]@ == k);
                        assert(listed_name(list0, k));
                    }
                }
            }
        }
    }

    /// Drop every file marker and every model entry.
    pub fn clear(&mut self)
        ensures
            final(self).known_files() == Set::<Seq<char>>::empty(),
            final(self).entries() == Map::<Seq<char>, ModelCacheEntry>::empty(),
            final(self).spec_loads() == old(self).spec_loads(),
    {
        self.known_files.clear();
        self.obj_cache.clear();
        proof {
            assert(self.known_files@.dom() =~= Set::<Seq<char>>::empty());
        }
    }
}

/// Whether one of the first `i` parsed meshes carries the given name.
pub open spec fn has_named_prefix(s: Seq<(Seq<char>, MeshCounts)>, i: int, k: Seq<char>)
    -> bool {
    exists|j: int| 0 <= j < i && s[j].0 == k
}

} // verus!
