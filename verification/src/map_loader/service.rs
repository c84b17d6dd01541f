//! The map loader's records and the decisions it takes on each command; the file work
//! (copying packages, unpacking archives) is done by the caller between the decisions.

use vstd::prelude::*;

use crate::music_control::after_last_slash;
use crate::seqs::{first_where_from, lemma_first_where_from};
use crate::text::{chars_of, str_eq, string_of};

verus! {

/// A custom map: the name of its folder.
#[derive(Debug)]
pub struct CustomMapId(pub String);

impl CustomMapId {
    pub fn as_str(&self) -> (r: &str)
        ensures
            r@ == self.0@,
    {
        self.0.as_str()
    }
}

impl Clone for CustomMapId {
    fn clone(&self) -> (r: Self)
        ensures
            r.0@ == self.0@,
    {
        CustomMapId(self.0.clone())
    }
}

/// A custom map and what its archive said about it.
#[derive(Debug)]
pub struct CustomMapInfo {
    pub id: CustomMapId,
    pub author: Option<String>,
    pub description: Option<String>,
}

/// The model of an optional text.
pub open spec fn opt_view(o: Option<String>) -> Option<Seq<char>> {
    match o {
        Some(s) => Some(s@),
        None => None,
    }
}

/// The model of a map record: its name, author and description.
pub open spec fn map_view(m: CustomMapInfo) -> (Seq<char>, Option<Seq<char>>, Option<Seq<char>>) {
    (m.id.0@, opt_view(m.author), opt_view(m.description))
}

/// The model of a list of map records.
pub open spec fn maps_view(s: Seq<CustomMapInfo>) -> Seq<(Seq<char>, Option<Seq<char>>, Option<Seq<char>>)> {
    s.map_values(|m: CustomMapInfo| map_view(m))
}

/// A copy of an optional text.
fn clone_text(o: &Option<String>) -> (r: Option<String>)
    ensures
        opt_view(r) == opt_view(*o),
{
    match o {
        Some(s) => Some(s.clone()),
        None => None,
    }
}

impl Clone for CustomMapInfo {
    fn clone(&self) -> (r: Self)
        ensures
            map_view(r) == map_view(*self),
    {
        CustomMapInfo {
            id: self.id.clone(),
            author: clone_text(&self.author),
            description: clone_text(&self.description),
        }
    }
}

impl CustomMapInfo {
    pub fn new(name: String, author: Option<String>, description: Option<String>) -> (r: Self)
        ensures
            r.id.0@ == name@,
            opt_view(r.author) == opt_view(author),
            opt_view(r.description) == opt_view(description),
    {
        CustomMapInfo { id: CustomMapId(name), author, description }
    }
}

/// What the map loader keeps between runs.
#[derive(Debug)]
pub struct MapLoaderServiceSavedata {
    pub maps: Vec<CustomMapInfo>,
    pub loaded_map: Option<CustomMapId>,
    pub underpass_path: Option<String>,
}

impl Default for MapLoaderServiceSavedata {
    fn default() -> (r: Self)
        ensures
            r.maps@.len() == 0,
            r.loaded_map is None,
            r.underpass_path is None,
    {
        MapLoaderServiceSavedata { maps: Vec::new(), loaded_map: None, underpass_path: None }
    }
}

/// A request to the map loader.
#[derive(Debug)]
pub enum MapLoaderCommand {
    /// Import the archive at this path (only a `.zip` file is taken).
    Import(String),
    /// Import an archive already downloaded.
    ImportBytes { info: CustomMapInfo, zip_archive_bytes: Vec<u8>, image_jpeg_bytes: Vec<u8> },
    Load(CustomMapId),
    Delete(CustomMapId),
    Unload,
    UpdateUnderpassPath(String),
    ClearError,
}

/// The file work a command asks for.
#[derive(Debug)]
pub enum MapLoaderTask {
    /// Nothing to do.
    Nothing,
    /// Unpack the archive at this path, when it is a file, as the map of this name.
    ImportFile { path: String, name: String },
    /// Unpack an archive held in memory.
    ImportBytes { info: CustomMapInfo, zip_archive_bytes: Vec<u8>, image_jpeg_bytes: Vec<u8> },
    /// Back up the game's map file and copy the map's package over it.
    Load { id: CustomMapId, underpass_path: String },
    /// Remove the map's folder.
    Delete(CustomMapId),
    /// Remove the game's map file and restore its backup.
    Unload { underpass_path: String },
}

/// The model of an optional map id.
pub open spec fn id_view(o: Option<CustomMapId>) -> Option<Seq<char>> {
    match o {
        Some(i) => Some(i.0@),
        None => None,
    }
}

/// The maps whose name differs from `name`.
pub open spec fn other_than(name: Seq<char>) -> spec_fn((Seq<char>, Option<Seq<char>>, Option<Seq<char>>)) -> bool {
    |m: (Seq<char>, Option<Seq<char>>, Option<Seq<char>>)| m.0 != name
}

/// The state of the map loader that its commands change.
#[derive(Debug)]
pub struct MapLoaderServiceState {
    pub maps: Vec<CustomMapInfo>,
    pub loaded_map: Option<CustomMapId>,
    pub underpass_path: Option<String>,
    pub current_error: Option<String>,
}

impl MapLoaderServiceState {
    /// The state restored from saved data; the saved map file path is kept only when the file
    /// still exists (`underpass_exists`).
    pub fn from_savedata(savedata: MapLoaderServiceSavedata, underpass_exists: bool) -> (r: Self)
        ensures
            maps_view(r.maps@) == maps_view(savedata.maps@),
            id_view(r.loaded_map) == id_view(savedata.loaded_map),
            opt_view(r.underpass_path) == if underpass_exists {
                opt_view(savedata.underpass_path)
            } else {
                None
            },
            r.current_error is None,
    {
        let underpass_path = if underpass_exists {
            savedata.underpass_path
        } else {
            None
        };
        MapLoaderServiceState {
            maps: savedata.maps,
            loaded_map: savedata.loaded_map,
            underpass_path,
            current_error: None,
        }
    }

    /// What is kept between runs.
    pub fn save(&self) -> (r: MapLoaderServiceSavedata)
        ensures
            maps_view(r.maps@) == maps_view(self.maps@),
            id_view(r.loaded_map) == id_view(self.loaded_map),
            opt_view(r.underpass_path) == opt_view(self.underpass_path),
    {
        let mut maps: Vec<CustomMapInfo> = Vec::new();
        let mut i: usize = 0;
        while i < self.maps.len()
            invariant
                i <= self.maps@.len(),
                maps_view(maps@) == maps_view(self.maps@.take(i as int)),
            decreases self.maps@.len() - i,
        {
            let ghost before = maps_view(maps@);
            maps.push(self.maps[i].clone());
            assert(maps_view(maps@) =~= before.push(map_view(self.maps@[i as int])));
            assert(maps_view(self.maps@.take(i + 1)) =~= maps_view(self.maps@.take(i as int)).push(
                map_view(self.maps@[i as int]),
            ));
            i = i + 1;
        }
        assert(self.maps@.take(i as int) =~= self.maps@);
        let loaded_map = match &self.loaded_map {
            Some(id) => Some(id.clone()),
            None => None,
        };
        MapLoaderServiceSavedata { maps, loaded_map, underpass_path: clone_text(&self.underpass_path) }
    }

    /// Takes a command: changes what it changes at once and returns the file work it needs.
    /// Loading and unloading need a map file path; without one they fail at once.
    pub fn plan(&mut self, command: MapLoaderCommand) -> (r: MapLoaderTask)
        ensures
            maps_view(final(self).maps@) == maps_view(old(self).maps@),
            id_view(final(self).loaded_map) == id_view(old(self).loaded_map),
            match command {
                MapLoaderCommand::UpdateUnderpassPath(p) => r is Nothing && opt_view(final(self).underpass_path)
                    == Some(p@) && opt_view(final(self).current_error) == opt_view(old(self).current_error),
                MapLoaderCommand::ClearError => r is Nothing && final(self).current_error is None
                    && opt_view(final(self).underpass_path) == opt_view(old(self).underpass_path),
                MapLoaderCommand::Import(p) => (match zip_map_name(p@) {
                    Some(n) => r matches MapLoaderTask::ImportFile { path: q, name: m } && q@ == p@ && m@ == n,
                    None => r is Nothing,
                }) && opt_view(final(self).underpass_path) == opt_view(old(self).underpass_path)
                    && opt_view(final(self).current_error) == opt_view(old(self).current_error),
                MapLoaderCommand::ImportBytes { info, zip_archive_bytes, image_jpeg_bytes } => (r matches MapLoaderTask::ImportBytes {
                    info: i,
                    zip_archive_bytes: z,
                    image_jpeg_bytes: j,
                } && map_view(i) == map_view(info) && z@ == zip_archive_bytes@ && j@ == image_jpeg_bytes@)
                    && opt_view(final(self).underpass_path) == opt_view(old(self).underpass_path)
                    && opt_view(final(self).current_error) == opt_view(old(self).current_error),
                MapLoaderCommand::Delete(id) => (r matches MapLoaderTask::Delete(i) && i.0@ == id.0@)
                    && opt_view(final(self).underpass_path) == opt_view(old(self).underpass_path)
                    && opt_view(final(self).current_error) == opt_view(old(self).current_error),
                MapLoaderCommand::Load(id) => opt_view(final(self).underpass_path) == opt_view(
                    old(self).underpass_path,
                ) && match old(self).underpass_path {
                    Some(u) => (r matches MapLoaderTask::Load { id: i, underpass_path: q } && i.0@
                        == id.0@ && q@ == u@) && opt_view(final(self).current_error) == opt_view(
                        old(self).current_error,
                    ),
                    None => r is Nothing && opt_view(final(self).current_error) == Some(
                        "no valid underpass path"@,
                    ),
                },
                MapLoaderCommand::Unload => opt_view(final(self).underpass_path) == opt_view(
                    old(self).underpass_path,
                ) && match old(self).underpass_path {
                    Some(u) => (r matches MapLoaderTask::Unload { underpass_path: q } && q@ == u@)
                        && opt_view(final(self).current_error) == opt_view(old(self).current_error),
                    None => r is Nothing && opt_view(final(self).current_error) == Some(
                        "no underpass path"@,
                    ),
                },
            },
    {
        match command {
            MapLoaderCommand::UpdateUnderpassPath(path) => {
                self.underpass_path = Some(path);
                MapLoaderTask::Nothing
            },
            MapLoaderCommand::Import(path) => match archive_map_name(path.as_str()) {
                Some(name) => MapLoaderTask::ImportFile { path, name },
                None => MapLoaderTask::Nothing,
            },
            MapLoaderCommand::ImportBytes { info, zip_archive_bytes, image_jpeg_bytes } => {
                MapLoaderTask::ImportBytes { info, zip_archive_bytes, image_jpeg_bytes }
            },
            MapLoaderCommand::Delete(id) => MapLoaderTask::Delete(id),
            MapLoaderCommand::Load(id) => match &self.underpass_path {
                Some(u) => MapLoaderTask::Load { id, underpass_path: u.clone() },
                None => {
                    self.current_error = Some("no valid underpass path".to_owned());
                    MapLoaderTask::Nothing
                },
            },
            MapLoaderCommand::Unload => match &self.underpass_path {
                Some(u) => MapLoaderTask::Unload { underpass_path: u.clone() },
                None => {
                    self.current_error = Some("no underpass path".to_owned());
                    MapLoaderTask::Nothing
                },
            },
            MapLoaderCommand::ClearError => {
                self.current_error = None;
                MapLoaderTask::Nothing
            },
        }
    }

    /// Records the outcome of file work that failed: its message becomes the current error.
    pub fn fail(&mut self, message: String)
        ensures
            opt_view(final(self).current_error) == Some(message@),
            maps_view(final(self).maps@) == maps_view(old(self).maps@),
            id_view(final(self).loaded_map) == id_view(old(self).loaded_map),
            opt_view(final(self).underpass_path) == opt_view(old(self).underpass_path),
    {
        self.current_error = Some(message);
    }

    /// A map was loaded into the game.
    pub fn loaded(&mut self, id: CustomMapId)
        ensures
            id_view(final(self).loaded_map) == Some(id.0@),
            maps_view(final(self).maps@) == maps_view(old(self).maps@),
            opt_view(final(self).underpass_path) == opt_view(old(self).underpass_path),
            opt_view(final(self).current_error) == opt_view(old(self).current_error),
    {
        self.loaded_map = Some(id);
    }

    /// The game's own map was restored.
    pub fn unloaded(&mut self)
        ensures
            final(self).loaded_map is None,
            maps_view(final(self).maps@) == maps_view(old(self).maps@),
            opt_view(final(self).underpass_path) == opt_view(old(self).underpass_path),
            opt_view(final(self).current_error) == opt_view(old(self).current_error),
    {
        self.loaded_map = None;
    }

    /// A map was imported: it is added at the end of the list.
    pub fn imported(&mut self, info: CustomMapInfo)
        ensures
            maps_view(final(self).maps@) == maps_view(old(self).maps@).push(map_view(info)),
            id_view(final(self).loaded_map) == id_view(old(self).loaded_map),
            opt_view(final(self).underpass_path) == opt_view(old(self).underpass_path),
            opt_view(final(self).current_error) == opt_view(old(self).current_error),
    {
        let ghost before = maps_view(self.maps@);
        self.maps.push(info);
        assert(maps_view(self.maps@) =~= before.push(map_view(info)));
    }

    /// A map's folder was removed: every record of that name goes, the others stay in order.
    pub fn deleted(&mut self, id: &CustomMapId)
        ensures
            maps_view(final(self).maps@) == maps_view(old(self).maps@).filter(other_than(id.0@)),
            id_view(final(self).loaded_map) == id_view(old(self).loaded_map),
            opt_view(final(self).underpass_path) == opt_view(old(self).underpass_path),
            opt_view(final(self).current_error) == opt_view(old(self).current_error),
    {
        let ghost all = maps_view(self.maps@);
        let ghost keep = other_than(id.0@);
        let mut rest: Vec<CustomMapInfo> = Vec::new();
        std::mem::swap(&mut rest, &mut self.maps);
        let mut kept: Vec<CustomMapInfo> = Vec::new();
        let n = rest.len();
        let mut k: usize = 0;
        let mut remaining = rest;
        proof {
            reveal_with_fuel(Seq::<(Seq<char>, Option<Seq<char>>, Option<Seq<char>>)>::filter, 1);
            assert(all.take(0) =~= Seq::<(Seq<char>, Option<Seq<char>>, Option<Seq<char>>)>::empty());
            assert(all.skip(0) =~= all);
        }
        while remaining.len() > 0
            invariant
                n == all.len(),
                remaining@.len() + k == n,
                keep == other_than(id.0@),
                maps_view(remaining@) == all.skip(k as int),
                maps_view(kept@) == all.take(k as int).filter(keep),
            decreases remaining@.len(),
        {
            let ghost rb = remaining@;
            let m = remaining.remove(0);
            assert(maps_view(rb)[0] == map_view(m));
            assert(all.skip(k as int)[0] == all[k as int]);
            assert(maps_view(remaining@) =~= maps_view(rb).drop_first());
            assert(all.skip(k as int).drop_first() =~= all.skip(k + 1));
            proof {
                reveal_with_fuel(Seq::<(Seq<char>, Option<Seq<char>>, Option<Seq<char>>)>::filter, 1);
                let pre = all.take((k + 1) as int);
                assert(pre.drop_last() =~= all.take(k as int));
                assert(pre.last() == map_view(m));
            }
            if !str_eq(m.id.as_str(), id.as_str()) {
                let ghost kb = maps_view(kept@);
                kept.push(m);
                assert(maps_view(kept@) =~= kb.push(map_view(m)));
            }
            k = k + 1;
            assert(maps_view(remaining@) =~= all.skip(k as int));
        }
        assert(all.take(n as int) =~= all);
        self.maps = kept;
    }
}

/// The last component of a path, read as `Path::file_name` reads it on Unix: trailing `/`
/// and `.` components are passed over, and there is none when the path ends at the root, at a
/// leading `.` or at `..`.
pub open spec fn file_name_of(s: Seq<char>) -> Option<Seq<char>>
    decreases s.len(),
{
    if s.len() == 0 {
        None
    } else if s.last() == '/' {
        file_name_of(s.drop_last())
    } else {
        let c = after_last_slash(s);
        if c == seq!['.'] {
            if c.len() == s.len() {
                None
            } else {
                file_name_of(s.drop_last())
            }
        } else if c == seq!['.', '.'] {
            None
        } else {
            Some(c)
        }
    }
}

/// Whether a character is a dot.
pub open spec fn dot() -> spec_fn(char) -> bool {
    |c: char| c == '.'
}

/// A file name whose extension is `zip`: it ends with `.zip` after at least one character.
pub open spec fn is_zip_name(f: Seq<char>) -> bool {
    f.len() > 4 && f.subrange(f.len() - 4, f.len() as int) == seq!['.', 'z', 'i', 'p']
}

/// The map name an archive path gives: for a path whose file name has the extension `zip`,
/// the file name up to its first dot after the first character (as `Path::file_prefix`);
/// none for other paths.
pub open spec fn zip_map_name(path: Seq<char>) -> Option<Seq<char>> {
    match file_name_of(path) {
        Some(f) => if is_zip_name(f) {
            Some(
                match first_where_from(f, dot(), 1) {
                    Some(k) => f.take(k),
                    None => f,
                },
            )
        } else {
            None
        },
        None => None,
    }
}

/// The text after the last `/` of `s`, when `s` has no `/` from `i` on: what comes after the
/// last `/` before `i`, then the rest.
proof fn lemma_after_last_slash_tail(s: Seq<char>, i: int)
    requires
        0 <= i <= s.len(),
        forall|k: int| i <= k < s.len() ==> s[k] != '/',
    ensures
        after_last_slash(s) == after_last_slash(s.take(i)) + s.subrange(i, s.len() as int),
    decreases s.len() - i,
{
    if i == s.len() {
        assert(s.take(i) =~= s);
        assert(after_last_slash(s.take(i)) + s.subrange(i, s.len() as int) =~= after_last_slash(s));
    } else {
        let d = s.drop_last();
        lemma_after_last_slash_tail(d, i);
        assert(d.take(i) =~= s.take(i));
        assert(s.subrange(i, s.len() as int) =~= d.subrange(i, d.len() as int).push(s.last()));
        assert(after_last_slash(s) == after_last_slash(d).push(s.last()));
        assert(after_last_slash(s) =~= after_last_slash(s.take(i)) + s.subrange(i, s.len() as int));
    }
}

/// Where the file name of the first `end` characters lies, if there is one.
fn file_name_range(v: &Vec<char>, end: usize) -> (r: Option<(usize, usize)>)
    requires
        end <= v@.len(),
    ensures
        match r {
            Some((a, b)) => a <= b <= end && file_name_of(v@.take(end as int)) == Some(
                v@.subrange(a as int, b as int),
            ),
            None => file_name_of(v@.take(end as int)) is None,
        },
    decreases end,
{
    if end == 0 {
        return None;
    }
    let ghost s = v@.take(end as int);
    if v[end - 1] == '/' {
        assert(s.drop_last() =~= v@.take(end - 1));
        return file_name_range(v, end - 1);
    }
    let mut start = end;
    while start > 0 && v[start - 1] != '/'
        invariant
            start <= end <= v@.len(),
            forall|k: int| start <= k < end ==> v@[k] != '/',
        decreases start,
    {
        start = start - 1;
    }
    proof {
        lemma_after_last_slash_tail(s, start as int);
        assert(s.take(start as int) =~= v@.take(start as int));
        if start > 0 {
            assert(v@.take(start as int).last() == '/');
        }
        assert(after_last_slash(v@.take(start as int)) =~= Seq::<char>::empty());
        assert(s.subrange(start as int, end as int) =~= v@.subrange(start as int, end as int));
        assert(after_last_slash(s) =~= v@.subrange(start as int, end as int));
    }
    let ghost c = v@.subrange(start as int, end as int);
    if end - start == 1 && v[start] == '.' {
        assert(c =~= seq!['.']);
        if start == 0 {
            return None;
        }
        assert(s.drop_last() =~= v@.take(end - 1));
        return file_name_range(v, end - 1);
    }
    if end - start == 2 && v[start] == '.' && v[start + 1] == '.' {
        assert(c =~= seq!['.', '.']);
        return None;
    }
    proof {
        if c == seq!['.'] {
            assert(c[0] == '.');
        }
        if c == seq!['.', '.'] {
            assert(c[0] == '.' && c[1] == '.');
        }
    }
    Some((start, end))
}

/// The name of the map an archive path holds, when the path names a `.zip` file (see
/// `zip_map_name`).
pub fn archive_map_name(path: &str) -> (r: Option<String>)
    ensures
        match r {
            Some(n) => zip_map_name(path@) == Some(n@),
            None => zip_map_name(path@) is None,
        },
{
    let v = chars_of(path);
    assert(v@.take(v@.len() as int) =~= v@);
    match file_name_range(&v, v.len()) {
        None => None,
        Some((a, b)) => {
            let ghost f = v@.subrange(a as int, b as int);
            if b - a > 4 && v[b - 4] == '.' && v[b - 3] == 'z' && v[b - 2] == 'i' && v[b - 1] == 'p' {
                assert(f.subrange(f.len() - 4, f.len() as int) =~= seq!['.', 'z', 'i', 'p']);
                let mut k = a + 1;
                while k < b && v[k] != '.'
                    invariant
                        a + 1 <= k <= b,
                        b <= v@.len(),
                        b - a > 4,
                        v@[b - 4] == '.',
                        forall|j: int| a + 1 <= j < k ==> v@[j] != '.',
                    decreases b - k,
                {
                    k = k + 1;
                }
                proof {
                    assert(k < b);
                    let m = (k - a) as int;
                    assert(f[m] == '.');
                    assert forall|j: int| 1 <= j < m implies !dot()(f[j]) by {
                        assert(f[j] == v@[a + j]);
                    }
                    lemma_first_where_from(f, dot(), 1);
                    match first_where_from(f, dot(), 1) {
                        Some(x) => {
                            assert(!(x < m));
                            assert(!(m < x));
                        },
                        None => {
                            assert(!dot()(f[m]));
                        },
                    }
                    assert(f.take(m) =~= v@.subrange(a as int, k as int));
                }
                Some(string_of(&v, a, k))
            } else {
                proof {
                    if is_zip_name(f) {
                        let tail = f.subrange(f.len() - 4, f.len() as int);
                        assert(tail[0] == f[f.len() - 4]);
                        assert(tail[1] == f[f.len() - 3]);
                        assert(tail[2] == f[f.len() - 2]);
                        assert(tail[3] == f[f.len() - 1]);
                    }
                }
                None
            }
        },
    }
}

/// What an entry of a map archive is used for.
#[derive(Debug, Clone, Copy, PartialEq, Eq, Structural)]
pub enum EntryRole {
    /// `info.json`: the map's author and description.
    Info,
    /// A `.udk` or `.upk` package (any letter case): the map itself.
    Package,
    /// `preview.jpg`: the map's picture.
    Preview,
    /// Anything else, which is skipped.
    Other,
}

/// A character with ASCII upper-case letters made lower-case.
pub open spec fn ascii_lower(c: char) -> char {
    if 'A' <= c <= 'Z' {
        ((c as u32) + 32) as char
    } else {
        c
    }
}

/// Two texts equal up to the letter case of ASCII letters.
pub open spec fn same_ignoring_ascii_case(a: Seq<char>, b: Seq<char>) -> bool {
    a.len() == b.len() && forall|i: int| 0 <= i < a.len() ==> ascii_lower(#[trigger] a[i]) == ascii_lower(b[i])
}

/// Whether two texts are equal up to the letter case of ASCII letters.
pub fn eq_ignore_ascii_case(a: &str, b: &str) -> (r: bool)
    ensures
        r == same_ignoring_ascii_case(a@, b@),
{
    let va = chars_of(a);
    let vb = chars_of(b);
    if va.len() != vb.len() {
        return false;
    }
    let mut i: usize = 0;
    while i < va.len()
        invariant
            va@ == a@,
            vb@ == b@,
            va@.len() == vb@.len(),
            i <= va@.len(),
            forall|j: int| 0 <= j < i ==> ascii_lower(#[trigger] va@[j]) == ascii_lower(vb@[j]),
        decreases va@.len() - i,
    {
        let x = va[i];
        let y = vb[i];
        let lx = if 'A' <= x && x <= 'Z' {
            ((x as u32) + 32) as u8 as char
        } else {
            x
        };
        let ly = if 'A' <= y && y <= 'Z' {
            ((y as u32) + 32) as u8 as char
        } else {
            y
        };
        assert(lx == ascii_lower(x));
        assert(ly == ascii_lower(y));
        if lx != ly {
            return false;
        }
        i = i + 1;
    }
    true
}

/// The role of an archive entry, from its file name and extension: the info file first,
/// then packages, then the preview.
pub open spec fn entry_role_of(file_name: Seq<char>, extension: Option<Seq<char>>) -> EntryRole {
    if file_name == "info.json"@ {
        EntryRole::Info
    } else if extension matches Some(e) && (same_ignoring_ascii_case(e, "udk"@) || same_ignoring_ascii_case(e, "upk"@)) {
        EntryRole::Package
    } else if file_name == "preview.jpg"@ {
        EntryRole::Preview
    } else {
        EntryRole::Other
    }
}

/// The role of an archive entry with this file name and extension.
pub fn archive_entry_role(file_name: &str, extension: Option<&str>) -> (r: EntryRole)
    ensures
        r == entry_role_of(
            file_name@,
            match extension {
                Some(e) => Some(e@),
                None => None,
            },
        ),
{
    if str_eq(file_name, "info.json") {
        return EntryRole::Info;
    }
    let package = match extension {
        Some(e) => eq_ignore_ascii_case(e, "udk") || eq_ignore_ascii_case(e, "upk"),
        None => false,
    };
    if package {
        EntryRole::Package
    } else if str_eq(file_name, "preview.jpg") {
        EntryRole::Preview
    } else {
        EntryRole::Other
    }
}

} // verus!
