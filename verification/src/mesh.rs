use vstd::prelude::*;

verus! {

/// One vertex of a model, as it is laid out in the vertex buffer. Each
/// component is the bit pattern of a 32-bit IEEE-754 float, copied unchanged
/// from the model file's data.
#[derive(Clone, Copy, Debug)]
pub struct ModelVertex {
    pub position: [u32; 3],
    pub tex_coords: [u32; 2],
    pub normal: [u32; 3],
}

/// The number of 32-bit words one vertex takes in the vertex buffer.
pub const VERTEX_WORDS: usize = 8;

/// The bit pattern of the float `0.0`, the normal of a mesh without normals.
pub const ZERO_BITS: u32 = 0;

/// How many whole vertices a list of position coordinates holds.
pub open spec fn vertex_count(positions: Seq<u32>) -> nat {
    positions.len() / 3
}

/// Whether the texture coordinates and normals cover every vertex the
/// positions describe: two texture coordinates per vertex, and three normal
/// components per vertex unless the mesh has no normals at all.
pub open spec fn covers(positions: Seq<u32>, texcoords: Seq<u32>, normals: Seq<u32>) -> bool {
    &&& texcoords.len() >= 2 * vertex_count(positions)
    &&& (normals.len() == 0 || normals.len() >= 3 * vertex_count(positions))
}

/// Whether `v` is vertex `i` of the mesh with these component lists: its
/// position, texture coordinates and normal taken from the flat lists, and the
/// zero normal for a mesh without normals.
pub open spec fn is_vertex(v: ModelVertex, positions: Seq<u32>, texcoords: Seq<u32>, normals: Seq<u32>, i: int) -> bool {
    &&& v.position@ == positions.subrange(3 * i, 3 * i + 3)
    &&& v.tex_coords@ == texcoords.subrange(2 * i, 2 * i + 2)
    &&& v.normal@ == (if normals.len() == 0 {
        seq![ZERO_BITS, ZERO_BITS, ZERO_BITS]
    } else {
        normals.subrange(3 * i, 3 * i + 3)
    })
}

/// Builds the vertices of a mesh from its flat lists of positions (three
/// per vertex), texture coordinates (two per vertex) and normals (three per
/// vertex, or none). Position components that do not make a whole vertex
/// are left out.
pub fn assemble_vertices(positions: &Vec<u32>, texcoords: &Vec<u32>, normals: &Vec<u32>) -> (r: Vec<ModelVertex>)
    requires
        covers(positions@, texcoords@, normals@),
    ensures
        r@.len() == vertex_count(positions@),
        forall|i: int| 0 <= i < r@.len() ==> #[trigger] is_vertex(r@[i], positions@, texcoords@, normals@, i),
{
    let plen = positions.len();
    let count = plen / 3;
    let mut vertices: Vec<ModelVertex> = Vec::new();
    let mut i: usize = 0;
    while i < count
        invariant
            count == vertex_count(positions@),
            plen == positions@.len(),
            covers(positions@, texcoords@, normals@),
            i <= count,
            vertices@.len() == i,
            forall|k: int| 0 <= k < i ==> #[trigger] is_vertex(vertices@[k], positions@, texcoords@, normals@, k),
        decreases count - i,
    {
        assert(i * 3 + 3 <= positions@.len()) by (nonlinear_arith)
            requires
                i < count,
                count == positions@.len() / 3,
        ;
        let p: usize = i * 3;
        let t: usize = i * 2;
        let normal: [u32; 3] = if normals.len() == 0 {
            [ZERO_BITS, ZERO_BITS, ZERO_BITS]
        } else {
            [normals[p], normals[p + 1], normals[p + 2]]
        };
        let v = ModelVertex {
            position: [positions[p], positions[p + 1], positions[p + 2]],
            tex_coords: [texcoords[t], texcoords[t + 1]],
            normal,
        };
        proof {
            assert(v.position@ =~= positions@.subrange(3 * i, 3 * i + 3));
            assert(v.tex_coords@ =~= texcoords@.subrange(2 * i, 2 * i + 2));
            if normals@.len() == 0 {
                assert(v.normal@ =~= seq![ZERO_BITS, ZERO_BITS, ZERO_BITS]);
            } else {
                assert(v.normal@ =~= normals@.subrange(3 * i, 3 * i + 3));
            }
        }
        vertices.push(v);
        i = i + 1;
    }
    vertices
}

/// Whether the component lists make a mesh that [`mesh_data`] takes: the
/// texture coordinates and normals cover every vertex, and the vertex buffer's
/// words can be counted in a `usize`.
pub fn mesh_fits(positions: &Vec<u32>, texcoords: &Vec<u32>, normals: &Vec<u32>) -> (r: bool)
    ensures
        r == (covers(positions@, texcoords@, normals@) && vertex_count(positions@) * 8 <= usize::MAX),
{
    let count = positions.len() / 3;
    let t = texcoords.len();
    let n = normals.len();
    count <= t / 2 && (n == 0 || count <= n / 3) && count <= usize::MAX / 8
}

/// Word `j` (`0 <= j < 8`) of a vertex in the vertex buffer: the three
/// position components, the two texture coordinates, then the three normal
/// components.
pub open spec fn vertex_word(v: ModelVertex, j: int) -> u32 {
    if j < 3 {
        v.position@[j]
    } else if j < 5 {
        v.tex_coords@[j - 3]
    } else {
        v.normal@[j - 5]
    }
}

/// A vertex's eight words are its own fields in order, whatever their
/// values: the three position components, the two texture coordinates, the
/// three normal components.
pub proof fn lemma_vertex_words_in_order(v: ModelVertex)
    ensures
        forall|k: int| 0 <= k < 3 ==> #[trigger] vertex_word(v, k) == v.position@[k],
        forall|k: int| 0 <= k < 2 ==> #[trigger] vertex_word(v, 3 + k) == v.tex_coords@[k],
        forall|k: int| 0 <= k < 3 ==> #[trigger] vertex_word(v, 5 + k) == v.normal@[k],
{
}

/// The vertices laid out one after another, eight words each.
pub open spec fn flatten_vertices(vertices: Seq<ModelVertex>) -> Seq<u32> {
    Seq::new(vertices.len() * 8, |k: int| vertex_word(vertices[k / 8], k % 8))
}

/// Lays the vertices out one after another, eight words each.
pub fn vertex_words(vertices: &Vec<ModelVertex>) -> (r: Vec<u32>)
    requires
        vertices@.len() * 8 <= usize::MAX,
    ensures
        r@.len() == vertices@.len() * 8,
        forall|i: int, j: int|
            0 <= i < vertices@.len() && 0 <= j < 8 ==> r@[i * 8 + j] == #[trigger] vertex_word(vertices@[i], j),
        r@ == flatten_vertices(vertices@),
        forall|i: int, k: int|
            0 <= i < vertices@.len() && 0 <= k < 3 ==> r@[i * 8 + k] == #[trigger] vertices@[i].position@[k],
        forall|i: int, k: int|
            0 <= i < vertices@.len() && 0 <= k < 2 ==> r@[i * 8 + 3 + k] == #[trigger] vertices@[i].tex_coords@[k],
        forall|i: int, k: int|
            0 <= i < vertices@.len() && 0 <= k < 3 ==> r@[i * 8 + 5 + k] == #[trigger] vertices@[i].normal@[k],
{
    let mut words: Vec<u32> = Vec::new();
    let mut i: usize = 0;
    while i < vertices.len()
        invariant
            i <= vertices@.len(),
            words@.len() == i * 8,
            forall|a: int, j: int|
                0 <= a < i && 0 <= j < 8 ==> words@[a * 8 + j] == #[trigger] vertex_word(vertices@[a], j),
        decreases vertices@.len() - i,
    {
        let v = vertices[i];
        let ghost before = words@;
        words.push(v.position[0]);
        words.push(v.position[1]);
        words.push(v.position[2]);
        words.push(v.tex_coords[0]);
        words.push(v.tex_coords[1]);
        words.push(v.normal[0]);
        words.push(v.normal[1]);
        words.push(v.normal[2]);
        proof {
            assert forall|a: int, j: int| 0 <= a < i + 1 && 0 <= j < 8 implies words@[a * 8 + j]
                == #[trigger] vertex_word(vertices@[a], j) by {
                if a < i {
                    assert(a * 8 + j < i * 8) by (nonlinear_arith)
                        requires
                            a < i,
                            j < 8,
                    ;
                    assert(words@[a * 8 + j] == before[a * 8 + j]);
                } else {
                    assert(a * 8 + j == i * 8 + j);
                }
            }
        }
        i = i + 1;
    }
    proof {
        assert forall|k: int| 0 <= k < words@.len() implies words@[k] == flatten_vertices(vertices@)[k] by {
            let a = k / 8;
            let j = k % 8;
            assert(k == a * 8 + j && 0 <= a < vertices@.len() && 0 <= j < 8) by (nonlinear_arith)
                requires
                    0 <= k < vertices@.len() * 8,
                    a == k / 8,
                    j == k % 8,
            ;
            assert(words@[a * 8 + j] == vertex_word(vertices@[a], j));
        }
        assert(words@ =~= flatten_vertices(vertices@));
        lemma_flatten_fields(vertices@);
    }
    words
}

/// Byte `j` (`0 <= j < 4`) of a word, counting from the least significant.
pub open spec fn byte_of(w: u32, j: int) -> u8 {
    ((w >> ((8 * j) as u32)) & 0xffu32) as u8
}

/// The words laid out byte by byte, least significant byte first.
pub open spec fn le_bytes(words: Seq<u32>) -> Seq<u8> {
    Seq::new(4 * words.len(), |k: int| byte_of(words[k / 4], k % 4))
}

/// The words laid out byte by byte, most significant byte first.
pub open spec fn be_bytes(words: Seq<u32>) -> Seq<u8> {
    Seq::new(4 * words.len(), |k: int| byte_of(words[k / 4], 3 - k % 4))
}

/// The words' bytes in the machine's own byte order, which is one of the two.
pub open spec fn native_bytes(words: Seq<u32>, bytes: Seq<u8>) -> bool {
    bytes == le_bytes(words) || bytes == be_bytes(words)
}

/// The bytes of a list of 32-bit words, as the GPU reads them from a buffer.
///
/// Calls `bytemuck::cast_slice`, which reinterprets the words' memory as
/// bytes, and copies them. The contract claims four bytes per word, each
/// word's bytes in the machine's byte order: least or most significant first;
/// which of the two is not stated.
#[verifier::external_body]
fn words_as_bytes(words: &[u32]) -> (r: Vec<u8>)
    ensures
        native_bytes(words@, r@),
{
    bytemuck::cast_slice::<u32, u8>(words).to_vec()
}

/// A mesh ready for upload: its vertices, the bytes of its vertex and index
/// buffers, how many indices it draws, and which material it uses.
pub struct MeshData {
    pub vertices: Vec<ModelVertex>,
    pub vertex_bytes: Vec<u8>,
    pub index_bytes: Vec<u8>,
    /// The number of indices drawn, kept as the GPU's 32-bit count: a count
    /// past `u32::MAX` wraps.
    pub num_elements: u32,
    /// The index of the mesh's material; a mesh without one uses material 0.
    pub material: usize,
}

/// Prepares one mesh of a model file for upload: assembles its vertices,
/// lays them out in the vertex buffer, and takes the indices as they are.
pub fn mesh_data(
    positions: &Vec<u32>,
    texcoords: &Vec<u32>,
    normals: &Vec<u32>,
    indices: &Vec<u32>,
    material_id: Option<usize>,
) -> (r: MeshData)
    requires
        covers(positions@, texcoords@, normals@),
        vertex_count(positions@) * 8 <= usize::MAX,
    ensures
        r.vertices@.len() == vertex_count(positions@),
        forall|i: int| 0 <= i < r.vertices@.len() ==> #[trigger] is_vertex(r.vertices@[i], positions@, texcoords@, normals@, i),
        native_bytes(flatten_vertices(r.vertices@), r.vertex_bytes@),
        native_bytes(indices@, r.index_bytes@),
        r.vertex_bytes@.len() == 32 * vertex_count(positions@),
        r.index_bytes@.len() == 4 * indices@.len(),
        r.num_elements == indices@.len() as u32,
        r.material == (match material_id {
            Some(m) => m,
            None => 0,
        }),
{
    let vertices = assemble_vertices(positions, texcoords, normals);
    let words = vertex_words(&vertices);
    let vertex_bytes = words_as_bytes(words.as_slice());
    let index_bytes = words_as_bytes(indices.as_slice());
    let material = match material_id {
        Some(m) => m,
        None => 0,
    };
    MeshData { vertices, vertex_bytes, index_bytes, num_elements: #[verifier::truncate] (indices.len() as u32), material }
}

/// A material as the model file's material library describes it.
pub struct MaterialSource {
    pub name: String,
    pub diffuse_texture: Option<String>,
}

/// A material to load: its name and the file of its diffuse texture. Its
/// bind group binds that texture's view and sampler (see
/// [`crate::pipeline::group_entries`]).
pub struct MaterialPlan {
    pub name: String,
    pub diffuse_texture: String,
}

/// The material to load for a material of the model file: its name and
/// its diffuse texture's file. The material must name a diffuse texture.
pub fn material_plan(source: MaterialSource) -> (r: MaterialPlan)
    requires
        source.diffuse_texture is Some,
    ensures
        r.name == source.name,
        Some(r.diffuse_texture) == source.diffuse_texture,
{
    let MaterialSource { name, diffuse_texture } = source;
    MaterialPlan { name, diffuse_texture: diffuse_texture.unwrap() }
}

/// The vertex buffer of a mesh holds each vertex's own components in order,
/// taken straight from the model file's lists: position `i` at words
/// `8i..8i+3`, texture coordinates at `8i+3..8i+5`, and the normal at
/// `8i+5..8i+8`, which is all zeros for a mesh whose file has no normals.
pub proof fn lemma_mesh_words(positions: Seq<u32>, texcoords: Seq<u32>, normals: Seq<u32>, vertices: Seq<ModelVertex>)
    requires
        covers(positions, texcoords, normals),
        vertices.len() == vertex_count(positions),
        forall|i: int| 0 <= i < vertices.len() ==> #[trigger] is_vertex(vertices[i], positions, texcoords, normals, i),
    ensures
        flatten_vertices(vertices).len() == 8 * vertex_count(positions),
        forall|i: int, k: int|
            0 <= i < vertices.len() && 0 <= k < 3 ==> #[trigger] flatten_vertices(vertices)[i * 8 + k] == positions[3 * i
                + k],
        forall|i: int, k: int|
            0 <= i < vertices.len() && 0 <= k < 2 ==> #[trigger] flatten_vertices(vertices)[i * 8 + 3 + k] == texcoords[2
                * i + k],
        forall|i: int, k: int|
            0 <= i < vertices.len() && 0 <= k < 3 && normals.len() == 0 ==> #[trigger] flatten_vertices(vertices)[i * 8
                + 5 + k] == ZERO_BITS,
        forall|i: int, k: int|
            0 <= i < vertices.len() && 0 <= k < 3 && normals.len() != 0 ==> #[trigger] flatten_vertices(vertices)[i * 8
                + 5 + k] == normals[3 * i + k],
{
    lemma_flatten_fields(vertices);
    assert forall|i: int, k: int| 0 <= i < vertices.len() && 0 <= k < 3 implies #[trigger] flatten_vertices(
        vertices,
    )[i * 8 + k] == positions[3 * i + k] by {
        lemma_vertex_from_lists(positions, texcoords, normals, vertices[i], i);
    }
    assert forall|i: int, k: int| 0 <= i < vertices.len() && 0 <= k < 2 implies #[trigger] flatten_vertices(
        vertices,
    )[i * 8 + 3 + k] == texcoords[2 * i + k] by {
        lemma_vertex_from_lists(positions, texcoords, normals, vertices[i], i);
    }
    assert forall|i: int, k: int| 0 <= i < vertices.len() && 0 <= k < 3 && normals.len() == 0 implies #[trigger] flatten_vertices(
        vertices,
    )[i * 8 + 5 + k] == ZERO_BITS by {
        lemma_vertex_from_lists(positions, texcoords, normals, vertices[i], i);
    }
    assert forall|i: int, k: int| 0 <= i < vertices.len() && 0 <= k < 3 && normals.len() != 0 implies #[trigger] flatten_vertices(
        vertices,
    )[i * 8 + 5 + k] == normals[3 * i + k] by {
        lemma_vertex_from_lists(positions, texcoords, normals, vertices[i], i);
    }
}

/// The fields of vertex `i` of a mesh, component by component.
proof fn lemma_vertex_from_lists(positions: Seq<u32>, texcoords: Seq<u32>, normals: Seq<u32>, v: ModelVertex, i: int)
    requires
        covers(positions, texcoords, normals),
        0 <= i < vertex_count(positions),
        is_vertex(v, positions, texcoords, normals, i),
    ensures
        forall|k: int| 0 <= k < 3 ==> #[trigger] v.position@[k] == positions[3 * i + k],
        forall|k: int| 0 <= k < 2 ==> #[trigger] v.tex_coords@[k] == texcoords[2 * i + k],
        forall|k: int| 0 <= k < 3 && normals.len() == 0 ==> #[trigger] v.normal@[k] == ZERO_BITS,
        forall|k: int| 0 <= k < 3 && normals.len() != 0 ==> #[trigger] v.normal@[k] == normals[3 * i + k],
{
    assert(3 * i + 3 <= 3 * vertex_count(positions) <= positions.len()) by (nonlinear_arith)
        requires
            0 <= i < vertex_count(positions),
            vertex_count(positions) == positions.len() / 3,
    ;
    assert forall|k: int| 0 <= k < 3 implies #[trigger] v.position@[k] == positions[3 * i + k] by {
        assert(v.position@[k] == positions.subrange(3 * i, 3 * i + 3)[k]);
    }
    assert forall|k: int| 0 <= k < 2 implies #[trigger] v.tex_coords@[k] == texcoords[2 * i + k] by {
        assert(v.tex_coords@[k] == texcoords.subrange(2 * i, 2 * i + 2)[k]);
    }
    if normals.len() == 0 {
        assert forall|k: int| 0 <= k < 3 implies #[trigger] v.normal@[k] == ZERO_BITS by {
            assert(v.normal@[k] == seq![ZERO_BITS, ZERO_BITS, ZERO_BITS][k]);
        }
    } else {
        assert forall|k: int| 0 <= k < 3 implies #[trigger] v.normal@[k] == normals[3 * i + k] by {
            assert(v.normal@[k] == normals.subrange(3 * i, 3 * i + 3)[k]);
        }
    }
}

/// Where each field of each vertex stands among the laid-out words.
proof fn lemma_flatten_fields(vertices: Seq<ModelVertex>)
    ensures
        flatten_vertices(vertices).len() == vertices.len() * 8,
        forall|i: int, k: int|
            0 <= i < vertices.len() && 0 <= k < 3 ==> flatten_vertices(vertices)[i * 8 + k]
                == #[trigger] vertices[i].position@[k],
        forall|i: int, k: int|
            0 <= i < vertices.len() && 0 <= k < 2 ==> flatten_vertices(vertices)[i * 8 + 3 + k]
                == #[trigger] vertices[i].tex_coords@[k],
        forall|i: int, k: int|
            0 <= i < vertices.len() && 0 <= k < 3 ==> flatten_vertices(vertices)[i * 8 + 5 + k]
                == #[trigger] vertices[i].normal@[k],
{
    assert forall|i: int, k: int| 0 <= i < vertices.len() && 0 <= k < 3 implies flatten_vertices(vertices)[i * 8 + k]
        == #[trigger] vertices[i].position@[k] by {
        lemma_flat_index(vertices.len(), i, k);
    }
    assert forall|i: int, k: int| 0 <= i < vertices.len() && 0 <= k < 2 implies flatten_vertices(vertices)[i * 8 + 3
        + k] == #[trigger] vertices[i].tex_coords@[k] by {
        lemma_flat_index(vertices.len(), i, 3 + k);
    }
    assert forall|i: int, k: int| 0 <= i < vertices.len() && 0 <= k < 3 implies flatten_vertices(vertices)[i * 8 + 5
        + k] == #[trigger] vertices[i].normal@[k] by {
        lemma_flat_index(vertices.len(), i, 5 + k);
    }
}

proof fn lemma_flat_index(n: nat, i: int, j: int)
    requires
        0 <= i < n,
        0 <= j < 8,
    ensures
        0 <= i * 8 + j < n * 8,
        (i * 8 + j) / 8 == i,
        (i * 8 + j) % 8 == j,
{
    assert(0 <= i * 8 + j < n * 8) by (nonlinear_arith)
        requires
            0 <= i < n,
            0 <= j < 8,
    ;
    assert((i * 8 + j) / 8 == i && (i * 8 + j) % 8 == j) by (nonlinear_arith)
        requires
            0 <= i,
            0 <= j < 8,
    ;
}

} // verus!
