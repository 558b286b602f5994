use vstd::prelude::*;

use crate::image_data::ImageAdapter;

verus! {

/// One successfully ingested file: its name, its mime type and its raw bytes.
pub struct FileDetails {
    pub name: String,
    pub file_type: String,
    pub data: Vec<u8>,
}

/// Mathematical view of an ingested file.
#[verifier::ext_equal]
pub struct FileView {
    pub name: Seq<char>,
    pub file_type: Seq<char>,
    pub data: Seq<u8>,
}

impl View for FileDetails {
    type V = FileView;

    open spec fn view(&self) -> FileView {
        FileView { name: self.name@, file_type: self.file_type@, data: self.data@ }
    }
}

/// Name and mime type of a file handed in by the input surface; the raw file
/// handle itself stays with the surface that starts the asynchronous read.
pub struct FileMeta {
    pub name: String,
    pub file_type: String,
}

/// The messages the application state machine consumes.
pub enum Msg {
    /// An asynchronous read completed: file name, mime type and the bytes read.
    Loaded(String, String, Vec<u8>),
    /// A batch of files was selected or dropped.
    Files(Vec<FileMeta>),
    /// The generate control was activated.
    GenerateButtonClicked(bool),
    /// The tile-options control was activated.
    TileDropdownClicked(bool),
    /// The asynchronous read of the named file failed.
    ReadFailed(String),
}

/// The reported, user-visible failures.
#[derive(Debug)]
pub enum AppError {
    /// The first ingested file is not a decodable image.
    NotAnImage,
    /// The asynchronous read of the named file failed.
    ReadFailed(String),
}

/// The tiling shape a generation request selects; every request uses circles.
pub enum TileShape {
    Circles,
}

/// The configuration handed to the pattern generator.
pub struct GenerationConfig {
    pub shape: TileShape,
    /// Width, in source pixels, of the image block sampled per tile.
    pub block_width: usize,
    /// Height, in source pixels, of the image block sampled per tile.
    pub block_height: usize,
}

/// The side effects the reducer asks its surroundings to perform.
pub enum Effect {
    /// Begin the asynchronous byte read of the described file.
    StartRead(FileMeta),
    /// Drive the pattern generator over the decoded image with the given
    /// configuration, then wrap the serialized shape tree it returns with
    /// `crate::document::assemble_document` and show the result.
    RunGenerator(ImageAdapter, GenerationConfig),
    /// Set the class attribute of the options panel node to the given tokens.
    SetPanelClasses(String),
    /// Surface an error to the user.
    ReportError(AppError),
}

/// Mathematical view of the application state.
#[verifier::ext_equal]
pub struct AppView {
    /// Names of the in-flight reads, in the order they were first recorded.
    pub readers: Seq<Seq<char>>,
    /// The ingested files, in completion order.
    pub files: Seq<FileView>,
    /// Whether the tile options panel is flagged open.
    pub open: bool,
}

/// The class tokens the toggle puts on the panel node when its flag stands
/// `true` (the panel visible).
pub open spec fn opened_classes() -> Seq<char> {
    "rounded-md bg-white focus:outline-none"@
}

/// The class tokens the toggle puts on the panel node when its flag stands
/// `false` (the panel hidden).
pub open spec fn closed_classes() -> Seq<char> {
    "rounded-md bg-white focus:outline-none hidden"@
}

/// The fixed configuration every generation request uses: circle tiles, each
/// sampling a 6 x 6 block of source pixels.
pub open spec fn fixed_generation_config() -> GenerationConfig {
    GenerationConfig { shape: TileShape::Circles, block_width: 6, block_height: 6 }
}

/// The view of a freshly created application state.
pub open spec fn initial_state() -> AppView {
    AppView { readers: Seq::empty(), files: Seq::empty(), open: false }
}

/// Recording an in-flight read. A second submission under a name still being
/// read takes over that name's tracking slot, so the recorded names do not
/// change.
pub open spec fn spec_insert_reader(readers: Seq<Seq<char>>, name: Seq<char>) -> Seq<Seq<char>> {
    if readers.contains(name) {
        readers
    } else {
        readers.push(name)
    }
}

/// Recording one in-flight read per submitted name, first to last.
pub open spec fn spec_insert_all(readers: Seq<Seq<char>>, names: Seq<Seq<char>>) -> Seq<
    Seq<char>,
>
    decreases names.len(),
{
    if names.len() == 0 {
        readers
    } else {
        spec_insert_all(spec_insert_reader(readers, names[0]), names.skip(1))
    }
}

/// Dropping the tracking slot of a completed read.
pub open spec fn spec_remove_reader(readers: Seq<Seq<char>>, name: Seq<char>) -> Seq<Seq<char>> {
    if readers.contains(name) {
        readers.remove(readers.index_of(name))
    } else {
        readers
    }
}

/// A completed read appends its file — unconditionally, so files under equal
/// names pile up — and releases its tracking slot.
pub open spec fn spec_loaded(s: AppView, f: FileView) -> AppView {
    AppView { readers: spec_remove_reader(s.readers, f.name), files: s.files.push(f), open: s.open }
}

/// A toggle only inverts the flag.
pub open spec fn spec_toggle(s: AppView) -> AppView {
    AppView { readers: s.readers, files: s.files, open: !s.open }
}

/// The class set a toggle applies: chosen by the flag as it stands before the
/// flip, so the applied set lags the flag by one step.
pub open spec fn toggle_classes(s: AppView) -> Seq<char> {
    if s.open {
        opened_classes()
    } else {
        closed_classes()
    }
}

/// The names of a submitted batch, in submission order.
pub open spec fn names_of(metas: Seq<FileMeta>) -> Seq<Seq<char>> {
    metas.map_values(|m: FileMeta| m.name@)
}

/// Recording names first to last is the same as recording all but the last and
/// then the last.
proof fn lemma_insert_all_snoc(readers: Seq<Seq<char>>, names: Seq<Seq<char>>, last: Seq<char>)
    ensures
        spec_insert_all(readers, names.push(last)) == spec_insert_reader(
            spec_insert_all(readers, names),
            last,
        ),
    decreases names.len(),
{
    reveal_with_fuel(spec_insert_all, 3);
    if names.len() == 0 {
        assert(names.push(last)[0] == last);
        assert(names.push(last).skip(1) =~= Seq::<Seq<char>>::empty());
    } else {
        assert(names.push(last)[0] == names[0]);
        assert(names.push(last).skip(1) =~= names.skip(1).push(last));
        lemma_insert_all_snoc(spec_insert_reader(readers, names[0]), names.skip(1), last);
    }
}

/// The application state: in-flight reads, ingested files and the panel flag,
/// together with the two fixed class sets the toggle applies.
pub struct App {
    readers: Vec<String>,
    files: Vec<FileDetails>,
    tile_dropdown_is_open: bool,
    tile_dropdown_opened_classes: String,
    tile_dropdown_closed_classes: String,
}

impl View for App {
    type V = AppView;

    closed spec fn view(&self) -> AppView {
        AppView {
            readers: self.readers@.map_values(|s: String| s@),
            files: self.files@.map_values(|f: FileDetails| f@),
            open: self.tile_dropdown_is_open,
        }
    }
}

impl App {
    /// Names of in-flight reads are pairwise distinct, and the stored class
    /// sets are the two fixed ones.
    pub closed spec fn inv(&self) -> bool {
        &&& forall|i: int, j: int|
            0 <= i < j < self@.readers.len() ==> self@.readers[i] != self@.readers[j]
        &&& self.tile_dropdown_opened_classes@ == opened_classes()
        &&& self.tile_dropdown_closed_classes@ == closed_classes()
    }

    /// A fresh state: nothing in flight, nothing ingested, the panel closed.
    pub fn create() -> (app: App)
        ensures
            app.inv(),
            app@ == initial_state(),
    {
        let app = App {
            readers: Vec::new(),
            files: Vec::new(),
            tile_dropdown_is_open: false,
            tile_dropdown_opened_classes: "rounded-md bg-white focus:outline-none".to_owned(),
            tile_dropdown_closed_classes: "rounded-md bg-white focus:outline-none hidden".to_owned(),
        };
        proof {
            assert(app@.readers =~= initial_state().readers);
            assert(app@.files =~= initial_state().files);
            assert(app@ =~= initial_state());
        }
        app
    }

    /// Number of ingested files.
    pub fn files_len(&self) -> (n: usize)
        ensures
            n == self@.files.len(),
    {
        self.files.len()
    }

    /// The ingested file at position `i`, in completion order.
    pub fn file_at(&self, i: usize) -> (f: &FileDetails)
        requires
            i < self@.files.len(),
        ensures
            f@ == self@.files[i as int],
    {
        &self.files[i]
    }

    /// The in-memory panel flag.
    pub fn is_tile_dropdown_open(&self) -> (b: bool)
        ensures
            b == self@.open,
    {
        self.tile_dropdown_is_open
    }

    /// Position of a name among the in-flight reads, if it is there.
    fn reader_index(&self, name: &String) -> (r: Option<usize>)
        ensures
            match r {
                Some(i) => i < self@.readers.len() && self@.readers[i as int] == name@,
                None => !self@.readers.contains(name@),
            },
    {
        let mut i: usize = 0;
        while i < self.readers.len()
            invariant
                i <= self@.readers.len(),
                forall|k: int| 0 <= k < i ==> self@.readers[k] != name@,
            decreases self@.readers.len() - i,
        {
            if self.readers[i] == *name {
                return Some(i);
            }
            i += 1;
        }
        None
    }

    /// Record an in-flight read under this name; a name already being read
    /// keeps its single tracking slot.
    fn insert_reader(&mut self, name: String)
        requires
            old(self).inv(),
        ensures
            final(self).inv(),
            final(self)@.readers == spec_insert_reader(old(self)@.readers, name@),
            final(self)@.files == old(self)@.files,
            final(self)@.open == old(self)@.open,
    {
        match self.reader_index(&name) {
            Some(i) => {
                proof {
                    assert(self@.readers.contains(name@)) by {
                        assert(self@.readers[i as int] == name@);
                    }
                }
            },
            None => {
                self.readers.push(name);
                proof {
                    assert(self@.readers =~= old(self)@.readers.push(name@));
                    assert(self@.files =~= old(self)@.files);
                }
            },
        }
    }

    /// Drop the tracking slot of this name, if one is recorded.
    fn remove_reader(&mut self, name: &String)
        requires
            old(self).inv(),
        ensures
            final(self).inv(),
            final(self)@.readers == spec_remove_reader(old(self)@.readers, name@),
            final(self)@.files == old(self)@.files,
            final(self)@.open == old(self)@.open,
    {
        match self.reader_index(name) {
            Some(i) => {
                proof {
                    let rv = self@.readers;
                    assert(rv.contains(name@)) by {
                        assert(rv[i as int] == name@);
                    }
                    assert(rv[rv.index_of(name@)] == name@ && 0 <= rv.index_of(name@)
                        < rv.len());
                    assert(rv.index_of(name@) == i as int);
                }
                self.readers.remove(i);
                proof {
                    assert(self@.readers =~= old(self)@.readers.remove(i as int));
                    assert(self@.files =~= old(self)@.files);
                }
            },
            None => {},
        }
    }

    /// Record a completed read: append the file — equal names are kept, never
    /// merged — and release the name's tracking slot. The preview list must be
    /// re-rendered.
    fn loaded(&mut self, file_name: String, file_type: String, data: Vec<u8>) -> (render: bool)
        requires
            old(self).inv(),
        ensures
            final(self).inv(),
            final(self)@ == spec_loaded(
                old(self)@,
                FileView { name: file_name@, file_type: file_type@, data: data@ },
            ),
            render == true,
    {
        let ghost fv = FileView { name: file_name@, file_type: file_type@, data: data@ };
        let name_for_removal = file_name.clone();
        self.files.push(FileDetails { data, file_type, name: file_name });
        proof {
            assert(self@.files =~= old(self)@.files.push(fv));
            assert(self@.readers =~= old(self)@.readers);
        }
        self.remove_reader(&name_for_removal);
        proof {
            assert(self@ =~= spec_loaded(old(self)@, fv));
        }
        true
    }

    /// Flip the panel flag and ask for the class set chosen by the flag as it
    /// stood before the flip to be put on the panel node.
    fn toggle(&mut self) -> (r: (bool, Vec<Effect>))
        requires
            old(self).inv(),
        ensures
            final(self).inv(),
            final(self)@ == spec_toggle(old(self)@),
            r.0 == true,
            r.1@.len() == 1,
            (r.1@[0] matches Effect::SetPanelClasses(classes) && classes@ == toggle_classes(
                old(self)@,
            )),
    {
        let classes = if self.tile_dropdown_is_open {
            self.tile_dropdown_opened_classes.clone()
        } else {
            self.tile_dropdown_closed_classes.clone()
        };
        self.tile_dropdown_is_open = !self.tile_dropdown_is_open;
        let mut effects: Vec<Effect> = Vec::new();
        effects.push(Effect::SetPanelClasses(classes));
        proof {
            assert(self@ =~= spec_toggle(old(self)@));
        }
        (true, effects)
    }

    /// Record one in-flight read per submitted file, first to last, and ask
    /// for each file's asynchronous byte read to be started.
    fn files_submitted(&mut self, metas: Vec<FileMeta>) -> (r: (bool, Vec<Effect>))
        requires
            old(self).inv(),
        ensures
            final(self).inv(),
            final(self)@.readers == spec_insert_all(old(self)@.readers, names_of(metas@)),
            final(self)@.files == old(self)@.files,
            final(self)@.open == old(self)@.open,
            r.0 == true,
            r.1@.len() == metas@.len(),
            forall|k: int|
                0 <= k < metas@.len() ==> (#[trigger] r.1@[k] matches Effect::StartRead(m)
                    && m.name@ == metas@[k].name@ && m.file_type@ == metas@[k].file_type@),
    {
        let ghost s0 = self@;
        let mut effects: Vec<Effect> = Vec::new();
        let mut i: usize = 0;
        while i < metas.len()
            invariant
                old(self).inv(),
                self.inv(),
                i <= metas@.len(),
                self@.files == s0.files,
                self@.open == s0.open,
                self@.readers == spec_insert_all(s0.readers, names_of(metas@.take(i as int))),
                effects@.len() == i,
                forall|k: int|
                    0 <= k < i ==> (#[trigger] effects@[k] matches Effect::StartRead(m)
                        && m.name@ == metas@[k].name@ && m.file_type@ == metas@[k].file_type@),
            decreases metas@.len() - i,
        {
            let name = metas[i].name.clone();
            let file_type = metas[i].file_type.clone();
            self.insert_reader(name.clone());
            effects.push(Effect::StartRead(FileMeta { name, file_type }));
            proof {
                let prev = names_of(metas@.take(i as int));
                lemma_insert_all_snoc(s0.readers, prev, metas@[i as int].name@);
                assert(names_of(metas@.take(i as int + 1)) =~= prev.push(
                    metas@[i as int].name@,
                ));
            }
            i += 1;
        }
        proof {
            assert(metas@.take(metas@.len() as int) =~= metas@);
        }
        (true, effects)
    }

    /// Handle a generation request. With nothing ingested it is a no-op that
    /// asks for no re-render. Otherwise the first-ever ingested file — later
    /// uploads are ignored — is decoded to luma form and handed out to be run
    /// through the pattern generator under the fixed configuration; bytes that
    /// are not a decodable image are reported instead. The state never changes.
    fn generate(&self) -> (r: (bool, Vec<Effect>))
        ensures
            (self@.files.len() == 0 ==> r.0 == false && r.1@.len() == 0),
            (self@.files.len() > 0 ==> {
                &&& r.0 == true
                &&& r.1@.len() == 1
                &&& match crate::codec::luma_decoding(self@.files[0].data) {
                    Some(t) => (r.1@[0] matches Effect::RunGenerator(img, cfg) && img@
                        == (crate::image_data::LumaView {
                        width: t.0,
                        height: t.1,
                        pixels: t.2,
                    }) && img.wf() && cfg == fixed_generation_config()),
                    None => (r.1@[0] matches Effect::ReportError(e) && e
                        == AppError::NotAnImage),
                }
            }),
    {
        if self.files.len() == 0 {
            return (false, Vec::new());
        }
        let mut effects: Vec<Effect> = Vec::new();
        match ImageAdapter::from_bytes(&self.files[0].data) {
            Ok(img) => {
                effects.push(
                    Effect::RunGenerator(
                        img,
                        GenerationConfig {
                            shape: TileShape::Circles,
                            block_width: 6,
                            block_height: 6,
                        },
                    ),
                );
            },
            Err(e) => {
                effects.push(Effect::ReportError(e));
            },
        }
        (true, effects)
    }

    /// Drop the failed read's tracking slot and ask for the failure to be
    /// reported to the user; the ingested files are untouched.
    fn read_failed(&mut self, file_name: String) -> (r: (bool, Vec<Effect>))
        requires
            old(self).inv(),
        ensures
            final(self).inv(),
            final(self)@.readers == spec_remove_reader(old(self)@.readers, file_name@),
            final(self)@.files == old(self)@.files,
            final(self)@.open == old(self)@.open,
            r.0 == true,
            r.1@.len() == 1,
            (r.1@[0] matches Effect::ReportError(e) && e matches AppError::ReadFailed(n)
                && n@ == file_name@),
    {
        self.remove_reader(&file_name);
        let mut effects: Vec<Effect> = Vec::new();
        effects.push(Effect::ReportError(AppError::ReadFailed(file_name)));
        (true, effects)
    }

    /// The state machine's single transition function: consume one message,
    /// update the state, and return whether the view must be re-rendered,
    /// together with the side effects to perform.
    pub fn update(&mut self, msg: Msg) -> (r: (bool, Vec<Effect>))
        requires
            old(self).inv(),
        ensures
            final(self).inv(),
            (msg matches Msg::Loaded(name, file_type, data) ==> {
                &&& final(self)@ == spec_loaded(
                    old(self)@,
                    FileView { name: name@, file_type: file_type@, data: data@ },
                )
                &&& r.0 == true
                &&& r.1@.len() == 0
            }),
            (msg matches Msg::Files(metas) ==> {
                &&& final(self)@.readers == spec_insert_all(old(self)@.readers, names_of(metas@))
                &&& final(self)@.files == old(self)@.files
                &&& final(self)@.open == old(self)@.open
                &&& r.0 == true
                &&& r.1@.len() == metas@.len()
                &&& forall|k: int|
                    0 <= k < metas@.len() ==> (#[trigger] r.1@[k] matches Effect::StartRead(m)
                        && m.name@ == metas@[k].name@ && m.file_type@ == metas@[k].file_type@)
            }),
            (msg matches Msg::GenerateButtonClicked(_) ==> {
                &&& *final(self) == *old(self)
                &&& (old(self)@.files.len() == 0 ==> r.0 == false && r.1@.len() == 0)
                &&& (old(self)@.files.len() > 0 ==> {
                    &&& r.0 == true
                    &&& r.1@.len() == 1
                    &&& match crate::codec::luma_decoding(old(self)@.files[0].data) {
                        Some(t) => (r.1@[0] matches Effect::RunGenerator(img, cfg) && img@
                            == (crate::image_data::LumaView {
                            width: t.0,
                            height: t.1,
                            pixels: t.2,
                        }) && img.wf() && cfg == fixed_generation_config()),
                        None => (r.1@[0] matches Effect::ReportError(e) && e
                            == AppError::NotAnImage),
                    }
                })
            }),
            (msg matches Msg::TileDropdownClicked(_) ==> {
                &&& final(self)@ == spec_toggle(old(self)@)
                &&& r.0 == true
                &&& r.1@.len() == 1
                &&& (r.1@[0] matches Effect::SetPanelClasses(classes) && classes@
                    == toggle_classes(old(self)@))
            }),
            (msg matches Msg::ReadFailed(name) ==> {
                &&& final(self)@.readers == spec_remove_reader(old(self)@.readers, name@)
                &&& final(self)@.files == old(self)@.files
                &&& final(self)@.open == old(self)@.open
                &&& r.0 == true
                &&& r.1@.len() == 1
                &&& (r.1@[0] matches Effect::ReportError(e) && e matches AppError::ReadFailed(n)
                    && n@ == name@)
            }),
    {
        match msg {
            Msg::Loaded(file_name, file_type, data) => {
                let render = self.loaded(file_name, file_type, data);
                (render, Vec::new())
            },
            Msg::Files(metas) => self.files_submitted(metas),
            Msg::GenerateButtonClicked(_) => self.generate(),
            Msg::TileDropdownClicked(_) => self.toggle(),
            Msg::ReadFailed(file_name) => self.read_failed(file_name),
        }
    }
}

} // verus!
