//! Loading content by path: the check that the file is there, and the choice
//! of the loader that imports it.

use crate::device::{BindGroupLayoutHandle, DeviceHandle, QueueHandle};
use crate::model::import::{ImportView, ModelImport};
use crate::model::ModelLoader;
use crate::paths::{join, joined};
use vstd::prelude::*;

verus! {

/// Why a piece of content could not be loaded.
#[derive(Debug)]
pub enum LoadError {
    /// Nothing is stored under the path.
    FileDoesNotExist,
    /// No registered loader accepts the file.
    UnknownFileFormat,
    /// A loader accepted the file and the importer could not read it.
    UnableToReadFile,
    /// The file was read and what it holds cannot be used.
    OtherError(String),
}

/// What a load error says.
pub enum LoadErrorView {
    FileDoesNotExist,
    UnknownFileFormat,
    UnableToReadFile,
    OtherError(Seq<char>),
}

impl View for LoadError {
    type V = LoadErrorView;

    open spec fn view(&self) -> LoadErrorView {
        match self {
            LoadError::FileDoesNotExist => LoadErrorView::FileDoesNotExist,
            LoadError::UnknownFileFormat => LoadErrorView::UnknownFileFormat,
            LoadError::UnableToReadFile => LoadErrorView::UnableToReadFile,
            LoadError::OtherError(detail) => LoadErrorView::OtherError(detail@),
        }
    }
}

impl LoadError {
    /// The text that describes the error.
    pub open spec fn message_text(&self) -> Seq<char> {
        match self {
            LoadError::FileDoesNotExist => "File does not exist"@,
            LoadError::UnknownFileFormat => "Unknown file format"@,
            LoadError::UnableToReadFile => "Unable to read file"@,
            LoadError::OtherError(detail) => "Another error occurred loading the file: "@ + detail@,
        }
    }

    /// The text that describes the error.
    pub fn message(&self) -> (text: String)
        ensures
            text@ == self.message_text(),
    {
        match self {
            LoadError::FileDoesNotExist => String::from_str("File does not exist"),
            LoadError::UnknownFileFormat => String::from_str("Unknown file format"),
            LoadError::UnableToReadFile => String::from_str("Unable to read file"),
            LoadError::OtherError(detail) => String::from_str(
                "Another error occurred loading the file: ",
            ).concat(detail.as_str()),
        }
    }
}

/// The position of the first loader that takes `path`, if any does.
pub open spec fn first_accepting<L: ModelLoader>(loaders: Seq<L>, path: Seq<char>) -> Option<int> {
    if exists|i: int| 0 <= i < loaders.len() && (#[trigger] loaders[i]).accepts(path) {
        Some(
            choose|i: int|
                0 <= i < loaders.len() && (#[trigger] loaders[i]).accepts(path) && forall|k: int|
                    0 <= k < i ==> !(#[trigger] loaders[k]).accepts(path),
        )
    } else {
        None
    }
}

/// Loads content for as long as one request, or a few, take: it owns the
/// base path, and borrows the loaders and the handles of the device.
pub struct ContentLoader<'a, L: ModelLoader> {
    base_path: String,
    model_loaders: &'a Vec<L>,
    device: DeviceHandle,
    queue: QueueHandle,
    layout: BindGroupLayoutHandle,
}

impl<'a, L: ModelLoader> ContentLoader<'a, L> {
    /// The path that content is resolved against.
    pub closed spec fn base_path(&self) -> Seq<char> {
        self.base_path@
    }

    /// The loaders, in the order in which they are tried.
    pub closed spec fn model_loaders(&self) -> Seq<L> {
        self.model_loaders@
    }

    /// The device that content is uploaded to.
    pub closed spec fn device(&self) -> DeviceHandle {
        self.device
    }

    /// The queue that content is uploaded through.
    pub closed spec fn queue(&self) -> QueueHandle {
        self.queue
    }

    /// The layout that textures are bound with.
    pub closed spec fn layout(&self) -> BindGroupLayoutHandle {
        self.layout
    }

    /// A content loader for the given base path, loaders and device.
    pub fn new(
        base_path: String,
        model_loaders: &'a Vec<L>,
        device: DeviceHandle,
        queue: QueueHandle,
        layout: BindGroupLayoutHandle,
    ) -> (loader: Self)
        ensures
            loader.base_path() == base_path@,
            loader.model_loaders() == model_loaders@,
            loader.device() == device,
            loader.queue() == queue,
            loader.layout() == layout,
    {
        ContentLoader { base_path, model_loaders, device, queue, layout }
    }

    /// The place of `path` in the content: `path` seen from the base path.
    pub fn resolve(&self, path: &str) -> (full: String)
        ensures
            full@ == joined(self.base_path(), path@),
    {
        join(self.base_path.as_str(), path)
    }

    /// The position of the first loader that takes the file at `path`.
    pub fn select_loader(&self, path: &str) -> (found: Option<usize>)
        ensures
            match found {
                Some(i) => {
                    &&& i < self.model_loaders().len()
                    &&& self.model_loaders()[i as int].accepts(path@)
                    &&& forall|k: int| 0 <= k < i ==> !(#[trigger] self.model_loaders()[k]).accepts(path@)
                },
                None => forall|k: int|
                    0 <= k < self.model_loaders().len() ==> !(#[trigger] self.model_loaders()[k]).accepts(
                        path@,
                    ),
            },
    {
        let mut i: usize = 0;
        while i < self.model_loaders.len()
            invariant
                i <= self.model_loaders.len(),
                forall|k: int| 0 <= k < i ==> !(#[trigger] self.model_loaders[k]).accepts(path@),
            decreases self.model_loaders.len() - i,
        {
            if self.model_loaders[i].can_handle_extension(path) {
                return Some(i);
            }
            i += 1;
        }
        None
    }

    /// Starts loading the model at `path`, seen from the base path. `exists`
    /// says whether a file is stored at that place. Without a file the load
    /// fails before any loader is asked; with one, the first loader that
    /// takes it starts the import, and the load fails if none does.
    pub fn load_model(&self, path: &str, exists: bool) -> (result: Result<ModelImport, LoadError>)
        ensures
            !exists ==> (match result {
                Err(error) => error@ == LoadErrorView::FileDoesNotExist,
                Ok(_) => false,
            }),
            exists ==> (match first_accepting(
                self.model_loaders(),
                joined(self.base_path(), path@),
            ) {
                None => match result {
                    Err(error) => error@ == LoadErrorView::UnknownFileFormat,
                    Ok(_) => false,
                },
                Some(i) => match result {
                    Ok(import) => import@ == ImportView::started(
                        joined(self.base_path(), path@),
                        self.model_loaders()[i].steps(),
                        self.device(),
                        self.queue(),
                        self.layout(),
                    ) && import@.consistent(),
                    Err(_) => false,
                },
            }),
    {
        if !exists {
            return Err(LoadError::FileDoesNotExist);
        }
        let full = self.resolve(path);
        match self.select_loader(full.as_str()) {
            Some(i) => {
                proof {
                    lemma_first_accepting(self.model_loaders@, full@, i as int);
                }
                Ok(self.model_loaders[i].load(self.device, self.queue, self.layout, full.as_str()))
            },
            None => Err(LoadError::UnknownFileFormat),
        }
    }
}

/// The first loader that takes a path is the one before which none does.
pub proof fn lemma_first_accepting<L: ModelLoader>(loaders: Seq<L>, path: Seq<char>, i: int)
    requires
        0 <= i < loaders.len(),
        loaders[i].accepts(path),
        forall|k: int| 0 <= k < i ==> !(#[trigger] loaders[k]).accepts(path),
    ensures
        first_accepting(loaders, path) == Some(i),
{
    let j = choose|j: int|
        0 <= j < loaders.len() && (#[trigger] loaders[j]).accepts(path) && forall|k: int|
            0 <= k < j ==> !(#[trigger] loaders[k]).accepts(path);
    assert(j == i) by {
        if j < i {
            assert(!loaders[j].accepts(path));
        }
        if i < j {
            assert(!loaders[i].accepts(path));
        }
    }
}

} // verus!
