//! Renderable models: meshes that live in device buffers, and the materials
//! they are drawn with.

pub mod assimp_loader;
pub mod contents;
pub mod import;
pub mod labels;
pub mod scene;

use crate::device::{
    BindGroupHandle, BindGroupLayoutHandle, BufferHandle, DeviceHandle, QueueHandle, TextureHandle,
};
use crate::model::import::{ImportView, ModelImport};
use crate::model::scene::PostProcess;
use vstd::prelude::*;

verus! {

/// How the data of one vertex attribute is laid out.
#[derive(Clone, Copy, Debug, PartialEq, Eq, Structural)]
pub enum VertexFormat {
    /// Two 32-bit floats.
    Float32x2,
    /// Three 32-bit floats.
    Float32x3,
}

impl VertexFormat {
    /// The number of bytes a value of this format takes.
    pub open spec fn size(self) -> int {
        match self {
            VertexFormat::Float32x2 => 8,
            VertexFormat::Float32x3 => 12,
        }
    }
}

/// Whether a vertex buffer advances per vertex or per instance.
#[derive(Clone, Copy, Debug, PartialEq, Eq, Structural)]
pub enum InputStepMode {
    Vertex,
    Instance,
}

/// One attribute of a vertex: where it starts within the vertex, the shader
/// input it feeds, and its format.
#[derive(Clone, Copy, Debug, PartialEq, Eq, Structural)]
pub struct VertexAttribute {
    pub offset: u64,
    pub shader_location: u32,
    pub format: VertexFormat,
}

/// The layout of the vertices in a buffer.
#[derive(Debug)]
pub struct VertexBufferLayout {
    pub array_stride: u64,
    pub step_mode: InputStepMode,
    pub attributes: Vec<VertexAttribute>,
}

/// A kind of vertex that can say how it is laid out in a buffer.
pub trait Vertex {
    /// The layout of a buffer of such vertices.
    fn desc() -> VertexBufferLayout;
}

/// The number of 32-bit words one model vertex takes in a vertex buffer.
pub const WORDS_PER_VERTEX: usize = 8;

/// A vertex of a model: position, texture coordinate and normal. Each
/// component is the bit pattern of a 32-bit float.
#[derive(Clone, Copy, Debug, PartialEq, Eq)]
pub struct ModelVertex {
    pub position: [u32; 3],
    pub tex_coords: [u32; 2],
    pub normal: [u32; 3],
}

impl ModelVertex {
    /// The words of the vertex in buffer order: position, then texture
    /// coordinate, then normal.
    pub open spec fn words(self) -> Seq<u32> {
        seq![
            self.position[0],
            self.position[1],
            self.position[2],
            self.tex_coords[0],
            self.tex_coords[1],
            self.normal[0],
            self.normal[1],
            self.normal[2],
        ]
    }

    /// The layout of a buffer of model vertices: three attributes, packed
    /// without gaps, that feed the shader inputs 0, 1 and 2.
    pub open spec fn layout_attributes() -> Seq<VertexAttribute> {
        seq![
            VertexAttribute { offset: 0, shader_location: 0, format: VertexFormat::Float32x3 },
            VertexAttribute { offset: 12, shader_location: 1, format: VertexFormat::Float32x2 },
            VertexAttribute { offset: 20, shader_location: 2, format: VertexFormat::Float32x3 },
        ]
    }
}

impl Vertex for ModelVertex {
    fn desc() -> (layout: VertexBufferLayout)
        ensures
            layout.array_stride == 32,
            layout.step_mode == InputStepMode::Vertex,
            layout.attributes@ == ModelVertex::layout_attributes(),
    {
        let mut attributes: Vec<VertexAttribute> = Vec::new();
        attributes.push(
            VertexAttribute { offset: 0, shader_location: 0, format: VertexFormat::Float32x3 },
        );
        attributes.push(
            VertexAttribute { offset: 12, shader_location: 1, format: VertexFormat::Float32x2 },
        );
        attributes.push(
            VertexAttribute { offset: 20, shader_location: 2, format: VertexFormat::Float32x3 },
        );
        assert(attributes@ =~= ModelVertex::layout_attributes());
        VertexBufferLayout { array_stride: 32, step_mode: InputStepMode::Vertex, attributes }
    }
}

/// The attributes of a model vertex follow one another without gap or
/// overlap, each takes as many bytes as its format says, and together they
/// fill the stride: four bytes for each word of the vertex.
pub proof fn lemma_layout_is_packed(vertex: ModelVertex)
    ensures
        ModelVertex::layout_attributes()[0].offset == 0,
        forall|i: int|
            0 <= i < 2 ==> (#[trigger] ModelVertex::layout_attributes()[i]).offset
                + ModelVertex::layout_attributes()[i].format.size()
                == ModelVertex::layout_attributes()[i + 1].offset,
        ModelVertex::layout_attributes()[2].offset + ModelVertex::layout_attributes()[2].format.size()
            == 32,
        4 * vertex.words().len() == 32,
        vertex.words().len() == WORDS_PER_VERTEX,
{
}

/// The surface of a mesh: a name, its diffuse texture, and the bind group
/// that hands the texture to the pipeline.
#[derive(Debug)]
pub struct Material {
    pub name: String,
    pub diffuse_texture: TextureHandle,
    pub bind_group: BindGroupHandle,
}

/// What a material holds.
pub struct MaterialView {
    pub name: Seq<char>,
    pub diffuse_texture: TextureHandle,
    pub bind_group: BindGroupHandle,
}

impl View for Material {
    type V = MaterialView;

    open spec fn view(&self) -> MaterialView {
        MaterialView {
            name: self.name@,
            diffuse_texture: self.diffuse_texture,
            bind_group: self.bind_group,
        }
    }
}

impl DeepView for Material {
    type V = MaterialView;

    open spec fn deep_view(&self) -> MaterialView {
        self@
    }
}

impl Material {
    /// A material with the given name, texture and bind group.
    pub fn new(name: String, diffuse_texture: TextureHandle, bind_group: BindGroupHandle) -> (material:
        Self)
        ensures
            material@ == (MaterialView { name: name@, diffuse_texture, bind_group }),
    {
        Self { name, diffuse_texture, bind_group }
    }
}

/// A batch of geometry: its vertices and indices in device buffers, the
/// number of indices to draw, and the position of its material among the
/// materials of the model that owns it.
#[derive(Debug)]
pub struct Mesh {
    pub name: String,
    pub vertex_buffer: BufferHandle,
    pub index_buffer: BufferHandle,
    pub num_elements: u32,
    pub material: usize,
}

/// What a mesh holds.
pub struct MeshView {
    pub name: Seq<char>,
    pub vertex_buffer: BufferHandle,
    pub index_buffer: BufferHandle,
    pub num_elements: u32,
    pub material: usize,
}

impl View for Mesh {
    type V = MeshView;

    open spec fn view(&self) -> MeshView {
        MeshView {
            name: self.name@,
            vertex_buffer: self.vertex_buffer,
            index_buffer: self.index_buffer,
            num_elements: self.num_elements,
            material: self.material,
        }
    }
}

impl DeepView for Mesh {
    type V = MeshView;

    open spec fn deep_view(&self) -> MeshView {
        self@
    }
}

impl Mesh {
    /// A mesh with the given name, buffers, index count and material.
    pub fn new(
        name: String,
        vertex_buffer: BufferHandle,
        index_buffer: BufferHandle,
        num_elements: u32,
        material: usize,
    ) -> (mesh: Self)
        ensures
            mesh@ == (MeshView {
                name: name@,
                vertex_buffer,
                index_buffer,
                num_elements,
                material,
            }),
    {
        Mesh { name, vertex_buffer, index_buffer, num_elements, material }
    }
}

/// A renderable asset: meshes, and the materials they refer to by position.
#[derive(Debug)]
pub struct Model {
    pub meshes: Vec<Mesh>,
    pub materials: Vec<Material>,
}

/// What a model holds.
pub struct ModelView {
    pub meshes: Seq<MeshView>,
    pub materials: Seq<MaterialView>,
}

impl ModelView {
    /// Every mesh refers to a material that the model has.
    pub open spec fn well_formed(self) -> bool {
        forall|i: int|
            0 <= i < self.meshes.len() ==> (#[trigger] self.meshes[i]).material
                < self.materials.len()
    }
}

impl View for Model {
    type V = ModelView;

    open spec fn view(&self) -> ModelView {
        ModelView { meshes: self.meshes.deep_view(), materials: self.materials.deep_view() }
    }
}

impl Model {
    /// A model of the given meshes and materials.
    pub fn new(meshes: Vec<Mesh>, materials: Vec<Material>) -> (model: Self)
        ensures
            model@.meshes == meshes.deep_view(),
            model@.materials == materials.deep_view(),
    {
        Self { meshes, materials }
    }

    /// Whether every mesh refers to a material that the model has.
    pub fn is_well_formed(&self) -> (b: bool)
        ensures
            b == self@.well_formed(),
    {
        let mut i: usize = 0;
        while i < self.meshes.len()
            invariant
                i <= self.meshes.len(),
                forall|k: int|
                    0 <= k < i ==> (#[trigger] self@.meshes[k]).material < self.materials.len(),
            decreases self.meshes.len() - i,
        {
            if self.meshes[i].material >= self.materials.len() {
                assert(self@.meshes[i as int].material >= self@.materials.len());
                return false;
            }
            i += 1;
        }
        true
    }
}

/// Something that can import models from files of some kind.
pub trait ModelLoader {
    /// Whether the loader takes the file at `path`. A loader that does not
    /// say otherwise takes every file.
    open spec fn accepts(&self, path: Seq<char>) -> bool {
        true
    }

    /// The steps that the loader has the importer apply to a scene. A loader
    /// that does not say otherwise asks for none.
    open spec fn steps(&self) -> Seq<PostProcess> {
        Seq::empty()
    }

    /// Starts the import of the file at `path`, for the given device.
    fn load(
        &self,
        device: DeviceHandle,
        queue: QueueHandle,
        layout: BindGroupLayoutHandle,
        path: &str,
    ) -> (import: ModelImport)
        ensures
            import@ == ImportView::started(path@, self.steps(), device, queue, layout),
            import@.consistent(),
    ;

    /// Whether the loader takes the file at `path`.
    fn can_handle_extension(&self, path: &str) -> (b: bool)
        ensures
            b == self.accepts(path@),
    ;
}

} // verus!
