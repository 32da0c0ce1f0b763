use vstd::prelude::*;

verus! {

/// Bytes in one vertex component: the buffers hold `f32` values, and the
/// block colour is read as one `u32`; both are four bytes wide.
pub const COMPONENT_BYTES: u32 = 4;

/// The vertex attributes the scene's shaders read.
#[derive(Clone, Copy, Debug, PartialEq, Eq, Structural)]
pub enum AttribName {
    Position,
    BlockRgb,
    AmbientBright,
    Uv,
}

/// The name of an attribute in the shader source.
pub open spec fn attrib_name(a: AttribName) -> Seq<char> {
    match a {
        AttribName::Position => "position"@,
        AttribName::BlockRgb => "blockRgb"@,
        AttribName::AmbientBright => "ambientBright"@,
        AttribName::Uv => "uv"@,
    }
}

impl AttribName {
    /// The attribute's name in the shader source.
    pub fn shader_name(&self) -> (s: &'static str)
        ensures
            s@ == attrib_name(*self),
            *self == AttribName::Position ==> s@ == "position"@,
            *self == AttribName::BlockRgb ==> s@ == "blockRgb"@,
            *self == AttribName::AmbientBright ==> s@ == "ambientBright"@,
            *self == AttribName::Uv ==> s@ == "uv"@,
    {
        match self {
            AttribName::Position => "position",
            AttribName::BlockRgb => "blockRgb",
            AttribName::AmbientBright => "ambientBright",
            AttribName::Uv => "uv",
        }
    }
}

/// How the shader reads an attribute's components.
#[derive(Clone, Copy, Debug, PartialEq, Eq, Structural)]
pub enum AttribKind {
    /// Floating-point components, not normalized.
    Float,
    /// Unsigned integer components, read as integers.
    UnsignedInt,
}

/// Where an attribute lies in a vertex: its component count and kind,
/// its byte offset inside the vertex, and the buffer binding it reads.
#[derive(Clone, Copy, Debug, PartialEq, Eq, Structural)]
pub struct AttribSpec {
    pub name: AttribName,
    pub components: i32,
    pub kind: AttribKind,
    pub relative_offset: u32,
    pub binding: u32,
}

/// The vertex layout: binding 0 is the geometry buffer, five components
/// per vertex (a position of three floats, a block colour as one unsigned
/// integer, an ambient brightness as one float); binding 1 is the texture
/// coordinate buffer, four floats per vertex of which the first two are
/// the coordinates.
pub open spec fn vertex_layout() -> Seq<AttribSpec> {
    seq![
        AttribSpec {
            name: AttribName::Position,
            components: 3,
            kind: AttribKind::Float,
            relative_offset: 0,
            binding: 0,
        },
        AttribSpec {
            name: AttribName::BlockRgb,
            components: 1,
            kind: AttribKind::UnsignedInt,
            relative_offset: 12,
            binding: 0,
        },
        AttribSpec {
            name: AttribName::AmbientBright,
            components: 1,
            kind: AttribKind::Float,
            relative_offset: 16,
            binding: 0,
        },
        AttribSpec {
            name: AttribName::Uv,
            components: 2,
            kind: AttribKind::Float,
            relative_offset: 0,
            binding: 1,
        },
    ]
}

/// The number of bindings the layout uses.
pub open spec fn binding_count() -> int {
    2
}

/// The byte distance between consecutive vertices of a binding: five
/// components for the geometry buffer, four for the texture coordinates.
pub open spec fn stride_of(binding: u32) -> int {
    if binding == 0 {
        5int * 4
    } else {
        4int * 4
    }
}

/// The vertex layout, in the order the attributes are set up.
pub fn old_geometry_layout() -> (layout: Vec<AttribSpec>)
    ensures
        layout@ == vertex_layout(),
{
    let mut layout: Vec<AttribSpec> = Vec::new();
    layout.push(
        AttribSpec {
            name: AttribName::Position,
            components: 3,
            kind: AttribKind::Float,
            relative_offset: 0,
            binding: 0,
        },
    );
    layout.push(
        AttribSpec {
            name: AttribName::BlockRgb,
            components: 1,
            kind: AttribKind::UnsignedInt,
            relative_offset: 3 * COMPONENT_BYTES,
            binding: 0,
        },
    );
    layout.push(
        AttribSpec {
            name: AttribName::AmbientBright,
            components: 1,
            kind: AttribKind::Float,
            relative_offset: 4 * COMPONENT_BYTES,
            binding: 0,
        },
    );
    layout.push(
        AttribSpec {
            name: AttribName::Uv,
            components: 2,
            kind: AttribKind::Float,
            relative_offset: 0,
            binding: 1,
        },
    );
    assert(layout@ =~= vertex_layout());
    layout
}

/// The stride of a binding, in bytes.
pub fn binding_stride(binding: u32) -> (stride: i32)
    requires
        binding < binding_count(),
    ensures
        stride == stride_of(binding),
{
    if binding == 0 {
        5 * 4
    } else {
        4 * 4
    }
}

/// Whether an attribute reads a binding.
pub open spec fn reads_binding(binding: u32) -> spec_fn(AttribSpec) -> bool {
    |a: AttribSpec| a.binding == binding
}

/// The attributes that read one binding, in layout order.
pub fn attributes_of_binding(binding: u32) -> (attribs: Vec<AttribSpec>)
    ensures
        attribs@ == vertex_layout().filter(reads_binding(binding)),
{
    let layout = old_geometry_layout();
    let mut attribs: Vec<AttribSpec> = Vec::new();
    let n = layout.len();
    for i in 0..n
        invariant
            n == layout@.len(),
            layout@ == vertex_layout(),
            attribs@ == vertex_layout().take(i as int).filter(reads_binding(binding)),
    {
        proof {
            reveal_with_fuel(Seq::<_>::filter, 1);
            assert(vertex_layout().take(i + 1).drop_last() =~= vertex_layout().take(i as int));
        }
        let a = layout[i];
        if a.binding == binding {
            attribs.push(a);
        }
    }
    proof {
        assert(vertex_layout().take(n as int) =~= vertex_layout());
    }
    attribs
}

/// One step of preparing a vertex array for the scene's geometry.
#[derive(Clone, Copy, Debug, PartialEq, Eq, Structural)]
pub enum GeometryCommand {
    /// Upload the data of the buffer of `binding`.
    Upload { binding: u32 },
    /// Attach the buffer of `binding` to the vertex array, with its stride.
    BindBuffer { binding: u32 },
    /// Set up the attributes that read `binding`, reporting absent ones
    /// instead of configuring them when `skip_missing` holds.
    SetupAttributes { binding: u32, skip_missing: bool },
}

/// The preparation of a vertex array, binding by binding: with `upload`,
/// each buffer's data is uploaded first and absent attributes are
/// reported; without it, the buffers are only attached and every location
/// is used as the shader gives it.
pub open spec fn geometry_commands(upload: bool) -> Seq<GeometryCommand> {
    if upload {
        seq![
            GeometryCommand::Upload { binding: 0 },
            GeometryCommand::BindBuffer { binding: 0 },
            GeometryCommand::SetupAttributes { binding: 0, skip_missing: true },
            GeometryCommand::Upload { binding: 1 },
            GeometryCommand::BindBuffer { binding: 1 },
            GeometryCommand::SetupAttributes { binding: 1, skip_missing: true },
        ]
    } else {
        seq![
            GeometryCommand::BindBuffer { binding: 0 },
            GeometryCommand::SetupAttributes { binding: 0, skip_missing: false },
            GeometryCommand::BindBuffer { binding: 1 },
            GeometryCommand::SetupAttributes { binding: 1, skip_missing: false },
        ]
    }
}

/// The commands that prepare a vertex array, in the order they run.
pub fn old_geometry_commands(upload: bool) -> (commands: Vec<GeometryCommand>)
    ensures
        commands@ == geometry_commands(upload),
        commands@.len() == if upload { 6int } else { 4int },
        commands@.contains(GeometryCommand::Upload { binding: 0 }) == upload,
        commands@.contains(GeometryCommand::Upload { binding: 1 }) == upload,
        commands@.contains(GeometryCommand::BindBuffer { binding: 0 }),
        commands@.contains(GeometryCommand::BindBuffer { binding: 1 }),
        commands@.contains(GeometryCommand::SetupAttributes { binding: 0, skip_missing: upload }),
        commands@.contains(GeometryCommand::SetupAttributes { binding: 1, skip_missing: upload }),
{
    let mut commands: Vec<GeometryCommand> = Vec::new();
    let mut binding: u32 = 0;
    while binding < 2
        invariant
            binding <= 2,
            commands@ == geometry_commands(upload).take(
                binding * (if upload { 3int } else { 2int }),
            ),
        decreases 2 - binding,
    {
        let ghost before = commands@;
        if upload {
            commands.push(GeometryCommand::Upload { binding });
        }
        commands.push(GeometryCommand::BindBuffer { binding });
        commands.push(GeometryCommand::SetupAttributes { binding, skip_missing: upload });
        assert(commands@ =~= geometry_commands(upload).take(
            (binding + 1) * (if upload { 3int } else { 2int }),
        ));
        binding = binding + 1;
    }
    assert(commands@ =~= geometry_commands(upload));
    proof {
        if upload {
            assert(commands@[0] == GeometryCommand::Upload { binding: 0 });
            assert(commands@[1] == GeometryCommand::BindBuffer { binding: 0 });
            assert(commands@[2] == GeometryCommand::SetupAttributes { binding: 0, skip_missing: upload });
            assert(commands@[3] == GeometryCommand::Upload { binding: 1 });
            assert(commands@[4] == GeometryCommand::BindBuffer { binding: 1 });
            assert(commands@[5] == GeometryCommand::SetupAttributes { binding: 1, skip_missing: upload });
        } else {
            assert(commands@[0] == GeometryCommand::BindBuffer { binding: 0 });
            assert(commands@[1] == GeometryCommand::SetupAttributes { binding: 0, skip_missing: upload });
            assert(commands@[2] == GeometryCommand::BindBuffer { binding: 1 });
            assert(commands@[3] == GeometryCommand::SetupAttributes { binding: 1, skip_missing: upload });
            assert(!commands@.contains(GeometryCommand::Upload { binding: 0 }));
            assert(!commands@.contains(GeometryCommand::Upload { binding: 1 }));
        }
    }
    commands
}

/// Every buffer is attached before its attributes are set up, and, when
/// uploading, its data is uploaded before it is attached.
pub proof fn lemma_commands_ordered(upload: bool, binding: u32)
    ensures
        forall|i: int, j: int|
            0 <= i < geometry_commands(upload).len() && 0 <= j < geometry_commands(upload).len()
                && #[trigger] geometry_commands(upload)[i] == (GeometryCommand::BindBuffer {
                binding,
            }) && #[trigger] geometry_commands(upload)[j] == (GeometryCommand::SetupAttributes {
                binding,
                skip_missing: upload,
            }) ==> i < j,
        forall|i: int, j: int|
            0 <= i < geometry_commands(upload).len() && 0 <= j < geometry_commands(upload).len()
                && #[trigger] geometry_commands(upload)[i] == (GeometryCommand::Upload { binding })
                && #[trigger] geometry_commands(upload)[j] == (GeometryCommand::BindBuffer {
                binding,
            }) ==> i < j,
{
}

/// The geometry binding reads position, block colour and brightness, the
/// texture coordinate binding reads the coordinates.
pub proof fn lemma_attributes_by_binding()
    ensures
        vertex_layout().filter(reads_binding(0)) =~= vertex_layout().take(3),
        vertex_layout().filter(reads_binding(1)) =~= vertex_layout().skip(3),
{
    reveal_with_fuel(Seq::<_>::filter, 5);
    assert(vertex_layout().take(3) =~= vertex_layout().drop_last());
    assert(vertex_layout().skip(3) =~= seq![vertex_layout()[3]]);
}

/// What to do with one attribute once its location in the shader is known.
#[derive(Clone, Copy, Debug, PartialEq, Eq, Structural)]
pub enum AttribStep {
    /// The shader has no such attribute: report it and set nothing up.
    Missing(AttribName),
    /// Enable the attribute at `index`, give it the format of `spec` and
    /// bind it to `spec.binding`.
    Configure { index: u32, spec: AttribSpec },
}

/// The step for an attribute at a shader location. Location -1 means the
/// shader lacks it; where `skip_missing` is off the location is used as
/// it is, converted to an unsigned index as the graphics API takes it.
pub open spec fn step_for(spec: AttribSpec, location: i32, skip_missing: bool) -> AttribStep {
    if skip_missing && location == -1 {
        AttribStep::Missing(spec.name)
    } else {
        AttribStep::Configure { index: location as u32, spec }
    }
}

/// Decides how to set up one attribute from the location the shader gave.
pub fn attribute_step(spec: AttribSpec, location: i32, skip_missing: bool) -> (step: AttribStep)
    ensures
        step == step_for(spec, location, skip_missing),
        skip_missing ==> ((step is Missing) <==> location == -1),
        step matches AttribStep::Missing(n) ==> n == spec.name,
        location >= 0 ==> step == (AttribStep::Configure { index: location as u32, spec }),
        !skip_missing ==> step == (AttribStep::Configure { index: location as u32, spec }),
{
    if skip_missing && location == -1 {
        AttribStep::Missing(spec.name)
    } else {
        AttribStep::Configure { index: location as u32, spec }
    }
}

/// The byte size of a buffer of `len` floats.
pub fn float_buffer_bytes(len: usize) -> (bytes: isize)
    requires
        len * 4 <= isize::MAX,
    ensures
        bytes == len * 4,
{
    (len * 4) as isize
}

/// Integer division that rounds toward zero, as machine division does.
pub open spec fn div_toward_zero(x: int, d: int) -> int {
    if x >= 0 {
        x / d
    } else {
        -((-x) / d)
    }
}

/// The number of vertices drawn from a geometry buffer of `length` floats:
/// the length, converted to the graphics API's 32-bit count (wrapping as
/// the conversion does), divided by the five floats of a vertex.
pub fn draw_vertex_count(length: usize) -> (count: i32)
    ensures
        count == div_toward_zero(#[verifier::truncate] (length as i32) as int, 5),
{
    let l: i32 = #[verifier::truncate] (length as i32);
    l / 5
}

/// Every attribute reads a binding the layout has, and lies, with all its
/// components, inside one vertex of that binding.
pub proof fn lemma_attributes_fit_stride()
    ensures
        forall|i: int|
            0 <= i < vertex_layout().len() ==> {
                let a = #[trigger] vertex_layout()[i];
                &&& a.binding < binding_count()
                &&& 0 < a.components
                &&& a.relative_offset + a.components * COMPONENT_BYTES <= stride_of(a.binding)
            },
{
}

/// Two attributes that read the same binding occupy disjoint bytes of it.
pub proof fn lemma_attributes_disjoint()
    ensures
        forall|i: int, j: int|
            0 <= i < j < vertex_layout().len() && #[trigger] vertex_layout()[i].binding
                == #[trigger] vertex_layout()[j].binding ==> {
                let a = vertex_layout()[i];
                let b = vertex_layout()[j];
                ||| a.relative_offset + a.components * COMPONENT_BYTES <= b.relative_offset
                ||| b.relative_offset + b.components * COMPONENT_BYTES <= a.relative_offset
            },
{
}

/// The draw count divides by the number of components in one vertex of the
/// geometry binding: for a buffer of whole vertices it is their number.
pub proof fn lemma_draw_count_whole_vertices(vertices: int)
    requires
        0 <= vertices,
        vertices * 5 <= i32::MAX,
    ensures
        stride_of(0) == 5 * COMPONENT_BYTES,
        div_toward_zero(vertices * 5, 5) == vertices,
{
}

/// A uniform of the scene's shader whose location is looked up once and
/// then kept.
#[derive(Clone, Copy, Debug, PartialEq, Eq, Structural)]
pub enum Uniform {
    Mvp,
    Walkbob,
    CamPos,
    AmbientBrightMult,
    ViewDistance,
    UnderWater,
    CamDir,
    Sunset,
    Sunrise,
}

/// The number of kept uniform locations.
pub open spec fn uniform_count() -> int {
    9
}

/// A uniform's place among the kept locations, in the order they are
/// looked up.
pub open spec fn uniform_index(u: Uniform) -> int {
    match u {
        Uniform::Mvp => 0,
        Uniform::Walkbob => 1,
        Uniform::CamPos => 2,
        Uniform::AmbientBrightMult => 3,
        Uniform::ViewDistance => 4,
        Uniform::UnderWater => 5,
        Uniform::CamDir => 6,
        Uniform::Sunset => 7,
        Uniform::Sunrise => 8,
    }
}

/// A uniform's name in the shader source.
pub open spec fn uniform_name(u: Uniform) -> Seq<char> {
    match u {
        Uniform::Mvp => "mvp"@,
        Uniform::Walkbob => "walkbob"@,
        Uniform::CamPos => "camPos"@,
        Uniform::AmbientBrightMult => "ambientBrightMult"@,
        Uniform::ViewDistance => "viewDistance"@,
        Uniform::UnderWater => "underWater"@,
        Uniform::CamDir => "camDir"@,
        Uniform::Sunset => "sunset"@,
        Uniform::Sunrise => "sunrise"@,
    }
}

/// The uniform names in the order their locations are looked up.
pub open spec fn lookup_names() -> Seq<Seq<char>> {
    seq![
        "mvp"@,
        "walkbob"@,
        "camPos"@,
        "ambientBrightMult"@,
        "viewDistance"@,
        "underWater"@,
        "camDir"@,
        "sunset"@,
        "sunrise"@,
    ]
}

/// The place of each uniform in the lookup order: the model-view-projection
/// matrix first, then the walk bob, the camera position, the ambient
/// brightness factor, the view distance, the underwater flag, the camera
/// direction, the sunset and the sunrise.
pub open spec fn uniform_lookup_place(u: Uniform) -> int {
    if u == Uniform::Mvp {
        0
    } else if u == Uniform::Walkbob {
        1
    } else if u == Uniform::CamPos {
        2
    } else if u == Uniform::AmbientBrightMult {
        3
    } else if u == Uniform::ViewDistance {
        4
    } else if u == Uniform::UnderWater {
        5
    } else if u == Uniform::CamDir {
        6
    } else if u == Uniform::Sunset {
        7
    } else {
        8
    }
}

impl Uniform {
    /// The uniform at a place among the kept locations.
    pub fn at(i: usize) -> (u: Uniform)
        requires
            i < uniform_count(),
        ensures
            uniform_index(u) == i,
            uniform_lookup_place(u) == i,
    {
        if i == 0 {
            Uniform::Mvp
        } else if i == 1 {
            Uniform::Walkbob
        } else if i == 2 {
            Uniform::CamPos
        } else if i == 3 {
            Uniform::AmbientBrightMult
        } else if i == 4 {
            Uniform::ViewDistance
        } else if i == 5 {
            Uniform::UnderWater
        } else if i == 6 {
            Uniform::CamDir
        } else if i == 7 {
            Uniform::Sunset
        } else {
            Uniform::Sunrise
        }
    }

    /// The uniform's place among the kept locations.
    pub fn index(&self) -> (i: usize)
        ensures
            i == uniform_index(*self),
            i == uniform_lookup_place(*self),
    {
        match self {
            Uniform::Mvp => 0,
            Uniform::Walkbob => 1,
            Uniform::CamPos => 2,
            Uniform::AmbientBrightMult => 3,
            Uniform::ViewDistance => 4,
            Uniform::UnderWater => 5,
            Uniform::CamDir => 6,
            Uniform::Sunset => 7,
            Uniform::Sunrise => 8,
        }
    }

    /// The uniform's name in the shader source.
    pub fn shader_name(&self) -> (s: &'static str)
        ensures
            s@ == uniform_name(*self),
            s@ == lookup_names()[uniform_lookup_place(*self)],
    {
        match self {
            Uniform::Mvp => "mvp",
            Uniform::Walkbob => "walkbob",
            Uniform::CamPos => "camPos",
            Uniform::AmbientBrightMult => "ambientBrightMult",
            Uniform::ViewDistance => "viewDistance",
            Uniform::UnderWater => "underWater",
            Uniform::CamDir => "camDir",
            Uniform::Sunset => "sunset",
            Uniform::Sunrise => "sunrise",
        }
    }
}

/// The kept uniform locations. The location of `Mvp` doubles as the mark
/// of whether the lookup has been made: it starts at -1, the value the
/// graphics API gives for a uniform it does not find, so a shader without
/// `mvp` is asked again on every draw.
pub struct UniformCache {
    locations: Vec<i32>,
}

/// The locations before any lookup: -1 for `Mvp`, 0 for the others.
pub open spec fn fresh_locations() -> Seq<i32> {
    seq![-1i32, 0i32, 0i32, 0i32, 0i32, 0i32, 0i32, 0i32, 0i32]
}

/// Whether kept locations still wait for their lookup.
pub open spec fn lookup_pending(locations: Seq<i32>) -> bool {
    locations[0] == -1
}

impl View for UniformCache {
    type V = Seq<i32>;

    closed spec fn view(&self) -> Seq<i32> {
        self.locations@
    }
}

impl UniformCache {
    #[verifier::type_invariant]
    spec fn holds_every_uniform(self) -> bool {
        self.locations.len() == uniform_count()
    }

    /// A cache before any lookup.
    pub fn new() -> (cache: UniformCache)
        ensures
            cache@ == fresh_locations(),
            cache@.len() == 9,
            cache@[0] == -1,
            forall|i: int| 1 <= i < 9 ==> cache@[i] == 0,
    {
        let locations: Vec<i32> = vec![-1, 0, 0, 0, 0, 0, 0, 0, 0];
        assert(locations@[0] == -1);
        assert(locations@ =~= fresh_locations());
        UniformCache { locations }
    }

    /// Whether the locations must be looked up before drawing.
    pub fn needs_lookup(&self) -> (needed: bool)
        ensures
            self@.len() == uniform_count(),
            needed == lookup_pending(self@),
            needed == (self@[0] == -1),
    {
        proof {
            use_type_invariant(self);
        }
        self.locations[0] == -1
    }

    /// Keeps the locations found by a lookup, in uniform order.
    pub fn store(&mut self, found: Vec<i32>)
        requires
            found@.len() == uniform_count(),
        ensures
            final(self)@ == found@,
    {
        self.locations = found;
    }

    /// The kept location of a uniform.
    pub fn location(&self, u: Uniform) -> (loc: i32)
        ensures
            self@.len() == uniform_count(),
            loc == self@[uniform_index(u)],
            loc == self@[uniform_lookup_place(u)],
    {
        proof {
            use_type_invariant(self);
        }
        self.locations[u.index()]
    }
}

/// A fresh cache asks for a lookup; once a lookup found `mvp` it asks no
/// more, and while `mvp` is missing it asks on every draw.
pub proof fn lemma_lookup_once(found: Seq<i32>)
    requires
        found.len() == uniform_count(),
    ensures
        lookup_pending(fresh_locations()),
        found[0] != -1 ==> !lookup_pending(found),
        found[0] == -1 ==> lookup_pending(found),
{
}

/// When checking, an attribute is reported missing exactly at location -1;
/// at every location from 0 up it is set up at that location with the
/// given format, and without checking every location is used as it is.
pub proof fn lemma_attribute_step(spec: AttribSpec, location: i32, skip_missing: bool)
    ensures
        skip_missing ==> (step_for(spec, location, skip_missing) == AttribStep::Missing(spec.name)
            <==> location == -1),
        location >= 0 ==> step_for(spec, location, skip_missing) == (AttribStep::Configure {
            index: location as u32,
            spec,
        }),
        !skip_missing ==> step_for(spec, location, skip_missing) == (AttribStep::Configure {
            index: location as u32,
            spec,
        }),
{
}

/// Each kept uniform location is the one looked up under that uniform's
/// name: the place of every uniform among the kept locations is its place
/// in the lookup order, and its name is the name looked up there.
pub proof fn lemma_uniform_names_and_places()
    ensures
        forall|u: Uniform| #[trigger] uniform_index(u) == uniform_lookup_place(u),
        forall|u: Uniform| #[trigger] uniform_name(u) == lookup_names()[uniform_lookup_place(u)],
        uniform_name(Uniform::Mvp) == "mvp"@,
        uniform_name(Uniform::CamPos) == "camPos"@,
        uniform_name(Uniform::CamDir) == "camDir"@,
        uniform_name(Uniform::Sunset) == "sunset"@,
        uniform_name(Uniform::Sunrise) == "sunrise"@,
        forall|u: Uniform, v: Uniform| #[trigger] uniform_index(u) == #[trigger] uniform_index(v) ==> u == v,
{
}

/// The attributes of a binding are packed: the first starts the vertex and
/// each next one starts where the one before ends; the geometry binding's
/// stride is exactly its attributes, the texture-coordinate binding's
/// stride leaves room after the coordinates.
pub proof fn lemma_layout_packed()
    ensures
        vertex_layout()[0].name == AttribName::Position && vertex_layout()[0].relative_offset == 0
            && vertex_layout()[0].components == 3 && vertex_layout()[0].kind == AttribKind::Float,
        vertex_layout()[1].name == AttribName::BlockRgb && vertex_layout()[1].kind
            == AttribKind::UnsignedInt && vertex_layout()[1].components == 1,
        vertex_layout()[2].name == AttribName::AmbientBright && vertex_layout()[2].kind
            == AttribKind::Float && vertex_layout()[2].components == 1,
        vertex_layout()[3].name == AttribName::Uv && vertex_layout()[3].relative_offset == 0
            && vertex_layout()[3].components == 2 && vertex_layout()[3].binding == 1,
        forall|i: int|
            1 <= i < 3 ==> #[trigger] vertex_layout()[i].relative_offset == vertex_layout()[i
                - 1].relative_offset + vertex_layout()[i - 1].components * COMPONENT_BYTES
                && vertex_layout()[i].binding == 0,
        stride_of(0) == vertex_layout()[2].relative_offset + vertex_layout()[2].components
            * COMPONENT_BYTES,
        stride_of(1) == 4 * COMPONENT_BYTES,
{
}

} // verus!
