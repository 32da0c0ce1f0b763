use jgame::geometry::{
    attribute_step, attributes_of_binding, binding_stride, draw_vertex_count, float_buffer_bytes,
    old_geometry_commands, old_geometry_layout, AttribKind, AttribName, AttribSpec, AttribStep,
    GeometryCommand, Uniform, UniformCache, COMPONENT_BYTES,
};

#[test]
fn layout_matches_the_shader_inputs() {
    let layout = old_geometry_layout();
    assert_eq!(layout.len(), 4);
    assert_eq!(
        layout[0],
        AttribSpec { name: AttribName::Position, components: 3, kind: AttribKind::Float, relative_offset: 0, binding: 0 }
    );
    assert_eq!(
        layout[1],
        AttribSpec { name: AttribName::BlockRgb, components: 1, kind: AttribKind::UnsignedInt, relative_offset: 12, binding: 0 }
    );
    assert_eq!(
        layout[2],
        AttribSpec { name: AttribName::AmbientBright, components: 1, kind: AttribKind::Float, relative_offset: 16, binding: 0 }
    );
    assert_eq!(
        layout[3],
        AttribSpec { name: AttribName::Uv, components: 2, kind: AttribKind::Float, relative_offset: 0, binding: 1 }
    );
}

#[test]
fn strides_and_component_size() {
    assert_eq!(binding_stride(0), 20);
    assert_eq!(binding_stride(1), 16);
    assert_eq!(COMPONENT_BYTES as usize, std::mem::size_of::<f32>());
    assert_eq!(COMPONENT_BYTES as usize, std::mem::size_of::<u32>());
}

#[test]
fn attributes_fit_and_do_not_overlap() {
    let layout = old_geometry_layout();
    for (i, a) in layout.iter().enumerate() {
        let end = a.relative_offset + a.components as u32 * COMPONENT_BYTES;
        assert!(end as i32 <= binding_stride(a.binding));
        for b in layout.iter().skip(i + 1) {
            if a.binding == b.binding {
                let b_end = b.relative_offset + b.components as u32 * COMPONENT_BYTES;
                assert!(end <= b.relative_offset || b_end <= a.relative_offset);
            }
        }
    }
}

#[test]
fn attribute_names() {
    assert_eq!(AttribName::Position.shader_name(), "position");
    assert_eq!(AttribName::BlockRgb.shader_name(), "blockRgb");
    assert_eq!(AttribName::AmbientBright.shader_name(), "ambientBright");
    assert_eq!(AttribName::Uv.shader_name(), "uv");
}

#[test]
fn missing_attribute_is_skipped_when_checking() {
    let uv = old_geometry_layout()[3];
    assert_eq!(attribute_step(uv, -1, true), AttribStep::Missing(AttribName::Uv));
    assert_eq!(attribute_step(uv, 5, true), AttribStep::Configure { index: 5, spec: uv });
}

#[test]
fn unchecked_location_is_used_as_index() {
    let pos = old_geometry_layout()[0];
    assert_eq!(attribute_step(pos, -1, false), AttribStep::Configure { index: u32::MAX, spec: pos });
    assert_eq!(attribute_step(pos, 0, false), AttribStep::Configure { index: 0, spec: pos });
}

#[test]
fn buffer_bytes() {
    assert_eq!(float_buffer_bytes(0), 0);
    assert_eq!(float_buffer_bytes(10), 40);
    assert_eq!(float_buffer_bytes(12345), 49380);
}

#[test]
fn vertex_count() {
    assert_eq!(draw_vertex_count(0), 0);
    assert_eq!(draw_vertex_count(10), 2);
    assert_eq!(draw_vertex_count(14), 2);
    assert_eq!(draw_vertex_count(15), 3);
}

#[test]
fn vertex_count_wraps_like_the_conversion() {
    assert_eq!(draw_vertex_count((1usize << 32) + 10), 2);
    assert_eq!(draw_vertex_count(1usize << 31), -429496729);
}

#[test]
fn uniform_order_and_names() {
    let names = [
        "mvp", "walkbob", "camPos", "ambientBrightMult", "viewDistance", "underWater", "camDir",
        "sunset", "sunrise",
    ];
    for (i, name) in names.iter().enumerate() {
        let u = Uniform::at(i);
        assert_eq!(u.index(), i);
        assert_eq!(u.shader_name(), *name);
    }
    assert_eq!(Uniform::at(0), Uniform::Mvp);
    assert_eq!(Uniform::at(8), Uniform::Sunrise);
}

#[test]
fn cache_looks_up_once() {
    let mut cache = UniformCache::new();
    assert!(cache.needs_lookup());
    assert_eq!(cache.location(Uniform::Mvp), -1);
    assert_eq!(cache.location(Uniform::Sunrise), 0);
    cache.store(vec![3, 4, 5, 6, 7, 8, 9, 10, 11]);
    assert!(!cache.needs_lookup());
    assert_eq!(cache.location(Uniform::Mvp), 3);
    assert_eq!(cache.location(Uniform::CamDir), 9);
}

#[test]
fn cache_without_mvp_keeps_asking() {
    let mut cache = UniformCache::new();
    cache.store(vec![-1, 4, 5, 6, 7, 8, 9, 10, 11]);
    assert!(cache.needs_lookup());
    assert_eq!(cache.location(Uniform::Walkbob), 4);
}

#[test]
fn attributes_split_by_binding() {
    let layout = old_geometry_layout();
    assert_eq!(attributes_of_binding(0), layout[0..3].to_vec());
    assert_eq!(attributes_of_binding(1), vec![layout[3]]);
    assert!(attributes_of_binding(2).is_empty());
}

#[test]
fn upload_commands_in_order() {
    assert_eq!(
        old_geometry_commands(true),
        vec![
            GeometryCommand::Upload { binding: 0 },
            GeometryCommand::BindBuffer { binding: 0 },
            GeometryCommand::SetupAttributes { binding: 0, skip_missing: true },
            GeometryCommand::Upload { binding: 1 },
            GeometryCommand::BindBuffer { binding: 1 },
            GeometryCommand::SetupAttributes { binding: 1, skip_missing: true },
        ]
    );
}

#[test]
fn rebind_commands_in_order() {
    assert_eq!(
        old_geometry_commands(false),
        vec![
            GeometryCommand::BindBuffer { binding: 0 },
            GeometryCommand::SetupAttributes { binding: 0, skip_missing: false },
            GeometryCommand::BindBuffer { binding: 1 },
            GeometryCommand::SetupAttributes { binding: 1, skip_missing: false },
        ]
    );
}
