//! Import of models through the Assimp importer: what is asked of the
//! importer, how each imported mesh and material becomes renderable, and the
//! order in which the pieces are uploaded.

use crate::content_loader::{LoadError, LoadErrorView};
use crate::device::{
    BindGroupHandle, BindGroupLayoutHandle, DeviceHandle, QueueHandle, TextureHandle,
};
use crate::model::import::ModelImport;
use crate::model::labels::{
    debug_format, debug_text, label, INDEX_BUFFER_SUFFIX, VERTEX_BUFFER_SUFFIX,
};
use crate::model::contents::{cast_words, memory_image};
use crate::model::scene::{ImportedMaterial, ImportedMesh, ImportedMeshView, PostProcess};
use crate::model::{Material, MaterialView, ModelLoader, ModelVertex};
use crate::paths::{join, joined};
use vstd::prelude::*;

verus! {

/// The texture of a material that names none.
pub const DEFAULT_DIFFUSE_TEXTURE: &'static str =
    "/Users/emilnorden/models/walnut/dioDiffuseMap.png";

/// The name every imported material gets.
pub const MATERIAL_NAME: &'static str = "New material";

/// The path of the diffuse texture of a material, for a source file that lies
/// in `folder`: the first texture the material names, seen from that folder,
/// or the default texture where it names none.
pub open spec fn diffuse_texture_path(folder: Seq<char>, material: Seq<Seq<char>>) -> Seq<char> {
    if material.len() > 0 {
        joined(folder, material[0])
    } else {
        DEFAULT_DIFFUSE_TEXTURE@
    }
}

/// The vertex of a mesh at position `i`, as it goes into the vertex buffer:
/// its position, the first two components of its texture coordinate, and its
/// normal.
pub open spec fn vertex_words(mesh: ImportedMeshView, i: int) -> Seq<u32> {
    seq![
        mesh.vertices[i].x,
        mesh.vertices[i].y,
        mesh.vertices[i].z,
        mesh.texture_coords.unwrap()[i].x,
        mesh.texture_coords.unwrap()[i].y,
        mesh.normals[i].x,
        mesh.normals[i].y,
        mesh.normals[i].z,
    ]
}

/// The indices of all faces, one face after the other.
pub open spec fn flat_indices(faces: Seq<Seq<u32>>) -> Seq<u32>
    decreases faces.len(),
{
    if faces.len() == 0 {
        Seq::empty()
    } else {
        flat_indices(faces.drop_last()) + faces.last()
    }
}

/// Whether every face has exactly three indices.
pub open spec fn triangulated(faces: Seq<Seq<u32>>) -> bool {
    forall|i: int| 0 <= i < faces.len() ==> (#[trigger] faces[i]).len() == 3
}

/// Whether every vertex has a texture coordinate and a normal.
pub open spec fn has_vertex_data(mesh: ImportedMeshView) -> bool {
    &&& mesh.texture_coords.is_some()
    &&& mesh.texture_coords.unwrap().len() >= mesh.vertices.len()
    &&& mesh.normals.len() >= mesh.vertices.len()
}

/// The indices of triangulated faces are three for each face.
pub proof fn lemma_flat_indices_len(faces: Seq<Seq<u32>>)
    requires
        triangulated(faces),
    ensures
        flat_indices(faces).len() == 3 * faces.len(),
    decreases faces.len(),
{
    if faces.len() > 0 {
        assert(triangulated(faces.drop_last())) by {
            assert forall|i: int| 0 <= i < faces.drop_last().len() implies (#[trigger] faces.drop_last()[i]).len()
                == 3 by {
                assert(faces.drop_last()[i] == faces[i]);
            }
        }
        lemma_flat_indices_len(faces.drop_last());
    }
}

/// What is wrong with a mesh whose vertices lack a texture coordinate or a
/// normal.
pub const MISSING_VERTEX_DATA: &'static str =
    "A mesh has a vertex without texture coordinate or normal.";

/// What is wrong with a mesh that has a face of another shape than a triangle.
pub const NOT_TRIANGULATED: &'static str = "A mesh has a face that is not a triangle.";

/// What is wrong with a mesh whose indices cannot be counted in 32 bits.
pub const TOO_MANY_INDICES: &'static str = "A mesh has too many indices.";

/// What is wrong with a mesh whose material is not among those of the scene.
pub const NO_SUCH_MATERIAL: &'static str = "A mesh refers to a material that the scene lacks.";

/// Why a mesh cannot be made renderable in a scene of `material_count`
/// materials, if it cannot: the first of its defects, in the order in which
/// they are looked for.
pub open spec fn mesh_defect(mesh: ImportedMeshView, material_count: int) -> Option<Seq<char>> {
    if !has_vertex_data(mesh) {
        Some(MISSING_VERTEX_DATA@)
    } else if !triangulated(mesh.faces) {
        Some(NOT_TRIANGULATED@)
    } else if 3 * mesh.faces.len() > u32::MAX {
        Some(TOO_MANY_INDICES@)
    } else if mesh.material_index >= material_count {
        Some(NO_SUCH_MATERIAL@)
    } else {
        None
    }
}

/// What an imported mesh becomes before it is uploaded: the contents of its
/// two buffers with their labels, the number of indices to draw, and the
/// position of its material.
#[derive(Debug)]
pub struct MeshData {
    pub name: String,
    pub vertex_label: String,
    pub vertices: Vec<ModelVertex>,
    pub index_label: String,
    pub indices: Vec<u32>,
    pub num_elements: u32,
    pub material: usize,
}

/// What the data of a mesh holds; each vertex by its words.
pub struct MeshDataView {
    pub name: Seq<char>,
    pub vertex_label: Seq<char>,
    pub vertices: Seq<Seq<u32>>,
    pub index_label: Seq<char>,
    pub indices: Seq<u32>,
    pub num_elements: u32,
    pub material: usize,
}

impl View for MeshData {
    type V = MeshDataView;

    open spec fn view(&self) -> MeshDataView {
        MeshDataView {
            name: self.name@,
            vertex_label: self.vertex_label@,
            vertices: Seq::new(self.vertices@.len(), |i: int| self.vertices@[i].words()),
            index_label: self.index_label@,
            indices: self.indices@,
            num_elements: self.num_elements,
            material: self.material,
        }
    }
}

/// The data of a mesh that has no defect.
pub open spec fn mesh_data(mesh: ImportedMeshView) -> MeshDataView {
    MeshDataView {
        name: mesh.name,
        vertex_label: debug_text(mesh.name) + VERTEX_BUFFER_SUFFIX@,
        vertices: Seq::new(mesh.vertices.len(), |i: int| vertex_words(mesh, i)),
        index_label: debug_text(mesh.name) + INDEX_BUFFER_SUFFIX@,
        indices: flat_indices(mesh.faces),
        num_elements: (3 * mesh.faces.len()) as u32,
        material: mesh.material_index as usize,
    }
}

/// The words of a vertex buffer: the words of its vertices, one vertex after
/// the other.
pub open spec fn interleaved(vertices: Seq<Seq<u32>>) -> Seq<u32>
    decreases vertices.len(),
{
    if vertices.len() == 0 {
        Seq::empty()
    } else {
        interleaved(vertices.drop_last()) + vertices.last()
    }
}

impl MeshData {
    /// The bytes of the vertex buffer: the vertices one after the other, each
    /// word as it lies in memory.
    pub fn vertex_contents(&self) -> (bytes: Vec<u8>)
        ensures
            memory_image(bytes@, interleaved(self@.vertices)),
    {
        let mut words: Vec<u32> = Vec::new();
        let mut i: usize = 0;
        while i < self.vertices.len()
            invariant
                i <= self.vertices.len(),
                words@ == interleaved(self@.vertices.subrange(0, i as int)),
            decreases self.vertices.len() - i,
        {
            let vertex = self.vertices[i];
            proof {
                let done = self@.vertices.subrange(0, i as int);
                let more = self@.vertices.subrange(0, i + 1);
                assert(more.drop_last() =~= done);
                assert(more.last() == vertex.words());
            }
            let ghost before = words@;
            words.push(vertex.position[0]);
            words.push(vertex.position[1]);
            words.push(vertex.position[2]);
            words.push(vertex.tex_coords[0]);
            words.push(vertex.tex_coords[1]);
            words.push(vertex.normal[0]);
            words.push(vertex.normal[1]);
            words.push(vertex.normal[2]);
            assert(words@ =~= before + vertex.words());
            i += 1;
        }
        assert(self@.vertices.subrange(0, i as int) =~= self@.vertices);
        cast_words(&words)
    }

    /// The bytes of the index buffer: the indices in order, each as it lies
    /// in memory.
    pub fn index_contents(&self) -> (bytes: Vec<u8>)
        ensures
            memory_image(bytes@, self@.indices),
    {
        cast_words(&self.indices)
    }
}

/// Imports models through the Assimp importer. It accepts every file.
pub struct AssimpModelLoader {
    generate_uv_coords: bool,
}

impl AssimpModelLoader {
    /// Whether the importer is asked to generate texture coordinates.
    pub closed spec fn generates_uv_coords(&self) -> bool {
        self.generate_uv_coords
    }

    /// The steps that the importer applies to every scene, in order, for a
    /// loader that does or does not ask for generated texture coordinates.
    pub open spec fn pipeline(generate_uv_coords: bool) -> Seq<PostProcess> {
        let fixed = seq![
            PostProcess::RemoveRedundantMaterials,
            PostProcess::CalculateTangentSpace,
            PostProcess::Triangulate,
            PostProcess::FindInstances,
            PostProcess::SortByPrimitiveType,
        ];
        if generate_uv_coords {
            fixed.push(PostProcess::GenerateUVCoords)
        } else {
            fixed
        }
    }

    /// A loader that does not ask for generated texture coordinates.
    pub fn new() -> (loader: Self)
        ensures
            !loader.generates_uv_coords(),
    {
        Self { generate_uv_coords: false }
    }

    /// The same loader, asking for generated texture coordinates or not.
    pub fn with_uv_generation(self, generate: bool) -> (loader: Self)
        ensures
            loader.generates_uv_coords() == generate,
    {
        Self { generate_uv_coords: generate }
    }

    /// The steps that the importer is to apply to a scene.
    pub fn post_process(&self) -> (steps: Vec<PostProcess>)
        ensures
            steps@ == Self::pipeline(self.generates_uv_coords()),
    {
        let mut steps: Vec<PostProcess> = Vec::new();
        steps.push(PostProcess::RemoveRedundantMaterials);
        steps.push(PostProcess::CalculateTangentSpace);
        steps.push(PostProcess::Triangulate);
        steps.push(PostProcess::FindInstances);
        steps.push(PostProcess::SortByPrimitiveType);
        if self.generate_uv_coords {
            steps.push(PostProcess::GenerateUVCoords);
        }
        assert(steps@ =~= Self::pipeline(self.generates_uv_coords()));
        steps
    }

    /// Makes an imported mesh ready for upload, for a scene of
    /// `material_count` materials: interleaves position, texture coordinate
    /// and normal of each vertex, and lines up the indices of its triangles.
    /// A mesh with a defect is refused with `OtherError` and the defect.
    pub fn create_mesh(ai_mesh: &ImportedMesh, material_count: usize) -> (result: Result<
        MeshData,
        LoadError,
    >)
        ensures
            match mesh_defect(ai_mesh@, material_count as int) {
                Some(detail) => match result {
                    Err(error) => error@ == LoadErrorView::OtherError(detail),
                    Ok(_) => false,
                },
                None => match result {
                    Ok(data) => data@ == mesh_data(ai_mesh@),
                    Err(_) => false,
                },
            },
    {
        let count = ai_mesh.vertices.len();
        let coords = match &ai_mesh.texture_coords {
            Some(coords) => coords,
            None => {
                return Err(LoadError::OtherError(String::from_str(MISSING_VERTEX_DATA)));
            },
        };
        if coords.len() < count || ai_mesh.normals.len() < count {
            return Err(LoadError::OtherError(String::from_str(MISSING_VERTEX_DATA)));
        }
        let mut vertices: Vec<ModelVertex> = Vec::new();
        let mut i: usize = 0;
        while i < count
            invariant
                i <= count,
                count == ai_mesh.vertices.len(),
                ai_mesh.texture_coords == Some(*coords),
                coords.len() >= count,
                ai_mesh.normals.len() >= count,
                vertices.len() == i,
                forall|k: int| 0 <= k < i ==> (#[trigger] vertices[k]).words() == vertex_words(ai_mesh@, k),
            decreases count - i,
        {
            let position = ai_mesh.vertices[i];
            let coord = coords[i];
            let normal = ai_mesh.normals[i];
            let vertex = ModelVertex {
                position: [position.x, position.y, position.z],
                tex_coords: [coord.x, coord.y],
                normal: [normal.x, normal.y, normal.z],
            };
            assert(vertex.words() =~= vertex_words(ai_mesh@, i as int));
            vertices.push(vertex);
            i += 1;
        }
        let faces = &ai_mesh.faces;
        let mut indices: Vec<u32> = Vec::new();
        let mut f: usize = 0;
        while f < faces.len()
            invariant
                f <= faces.len(),
                *faces == ai_mesh.faces,
                has_vertex_data(ai_mesh@),
                triangulated(faces.deep_view().subrange(0, f as int)),
                indices@ == flat_indices(faces.deep_view().subrange(0, f as int)),
            decreases faces.len() - f,
        {
            let face = &faces[f];
            proof {
                let done = faces.deep_view().subrange(0, f as int);
                let more = faces.deep_view().subrange(0, f + 1);
                assert(more.drop_last() =~= done);
                assert(more.last() =~= face@);
            }
            if face.len() != 3 {
                assert(ai_mesh@.faces[f as int].len() != 3);
                return Err(LoadError::OtherError(String::from_str(NOT_TRIANGULATED)));
            }
            let ghost before = indices@;
            indices.push(face[0]);
            indices.push(face[1]);
            indices.push(face[2]);
            assert(indices@ =~= before + face@);
            proof {
                let done = faces.deep_view().subrange(0, f as int);
                let more = faces.deep_view().subrange(0, f + 1);
                assert forall|k: int| 0 <= k < more.len() implies (#[trigger] more[k]).len() == 3 by {
                    if k < f {
                        assert(more[k] == done[k]);
                    }
                }
            }
            f += 1;
        }
        assert(faces.deep_view().subrange(0, f as int) =~= ai_mesh@.faces);
        proof {
            lemma_flat_indices_len(ai_mesh@.faces);
        }
        if indices.len() > 0xffff_ffff {
            return Err(LoadError::OtherError(String::from_str(TOO_MANY_INDICES)));
        }
        if ai_mesh.material_index as usize >= material_count {
            return Err(LoadError::OtherError(String::from_str(NO_SUCH_MATERIAL)));
        }
        let num_elements = indices.len() as u32;
        let data = MeshData {
            name: ai_mesh.name.clone(),
            vertex_label: label(debug_format(ai_mesh.name.as_str()), VERTEX_BUFFER_SUFFIX),
            vertices,
            index_label: label(debug_format(ai_mesh.name.as_str()), INDEX_BUFFER_SUFFIX),
            indices,
            num_elements,
            material: ai_mesh.material_index as usize,
        };
        assert(data@.vertices =~= mesh_data(ai_mesh@).vertices);
        Ok(data)
    }

    /// The path of the diffuse texture of a material whose source file lies
    /// in `folder`.
    pub fn load_diffuse_texture(folder: &str, ai_material: &ImportedMaterial) -> (path: String)
        ensures
            path@ == diffuse_texture_path(folder@, ai_material@),
    {
        if ai_material.diffuse_textures.len() > 0 {
            join(folder, ai_material.diffuse_textures[0].as_str())
        } else {
            String::from_str(DEFAULT_DIFFUSE_TEXTURE)
        }
    }

    /// The material made of an uploaded texture and the bind group that ties
    /// it to the pipeline.
    pub fn create_material(texture: TextureHandle, bind_group: BindGroupHandle) -> (material: Material)
        ensures
            material@ == (MaterialView {
                name: MATERIAL_NAME@,
                diffuse_texture: texture,
                bind_group,
            }),
    {
        Material::new(String::from_str(MATERIAL_NAME), texture, bind_group)
    }
}

impl ModelLoader for AssimpModelLoader {
    /// The importer reads many formats: every file is taken.
    open spec fn accepts(&self, path: Seq<char>) -> bool {
        true
    }

    open spec fn steps(&self) -> Seq<PostProcess> {
        Self::pipeline(self.generates_uv_coords())
    }

    fn load(
        &self,
        device: DeviceHandle,
        queue: QueueHandle,
        layout: BindGroupLayoutHandle,
        path: &str,
    ) -> (import: ModelImport) {
        ModelImport::new(path, self.post_process(), device, queue, layout)
    }

    fn can_handle_extension(&self, path: &str) -> (b: bool) {
        true
    }
}

/// One of the loaders that the engine knows, so that loaders of several
/// kinds can stand in one list.
pub enum KnownLoader {
    Assimp(AssimpModelLoader),
}

impl ModelLoader for KnownLoader {
    open spec fn accepts(&self, path: Seq<char>) -> bool {
        match self {
            KnownLoader::Assimp(loader) => loader.accepts(path),
        }
    }

    open spec fn steps(&self) -> Seq<PostProcess> {
        match self {
            KnownLoader::Assimp(loader) => loader.steps(),
        }
    }

    fn load(
        &self,
        device: DeviceHandle,
        queue: QueueHandle,
        layout: BindGroupLayoutHandle,
        path: &str,
    ) -> (import: ModelImport) {
        match self {
            KnownLoader::Assimp(loader) => loader.load(device, queue, layout, path),
        }
    }

    fn can_handle_extension(&self, path: &str) -> (b: bool) {
        match self {
            KnownLoader::Assimp(loader) => loader.can_handle_extension(path),
        }
    }
}

} // verus!
