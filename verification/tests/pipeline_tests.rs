use hexil::pipeline_plan::fan_vertex_count;
use hexil::pipeline_plan::instance_count_for;
use hexil::pipeline_plan::plan_descriptor_bindings;
use hexil::pipeline_plan::plan_draw_command_buffers;
use hexil::pipeline_plan::plan_pipeline;
use hexil::pipeline_plan::PrimitiveTopology;
use hexil::project::CanvasSize;
use hexil::project::GridType;
use hexil::project::PaletteIndex;

#[test]
fn tile_meshes_are_fans_of_six_or_eight_vertices() {
    assert_eq!(fan_vertex_count(GridType::Square), 6);
    assert_eq!(fan_vertex_count(GridType::Hexagonal), 8);
}

#[test]
fn pipeline_uses_triangle_fans_with_dynamic_viewport() {
    let c = plan_pipeline(GridType::Square);
    assert_eq!(c.topology, PrimitiveTopology::TriangleFan);
    assert!(c.dynamic_viewport);
    assert_eq!(c.vertex_count, 6);
    let c = plan_pipeline(GridType::Hexagonal);
    assert_eq!(c.vertex_count, 8);
}

#[test]
fn descriptor_set_binds_settings_then_indices() {
    let bindings = plan_descriptor_bindings();
    assert_eq!(bindings.len(), 2);
    assert_eq!(bindings[0].binding, 0);
    assert_eq!(bindings[1].binding, 1);
    for b in &bindings {
        assert!(b.uniform_buffer);
        assert!(b.vertex_stage);
        assert!(b.update_after_bind);
    }
}

#[test]
fn canvas_area_is_width_times_height() {
    let size = CanvasSize {
        width: 20,
        height: 15,
    };
    assert_eq!(size.area(), 300);
    let row = CanvasSize {
        width: 7,
        height: 1,
    };
    assert_eq!(row.area(), 7);
}

#[test]
fn one_instance_is_drawn_per_tile() {
    let size = CanvasSize {
        width: 20,
        height: 15,
    };
    assert_eq!(instance_count_for(&size), 300);
}

#[test]
fn one_command_buffer_is_recorded_per_framebuffer() {
    let plan = plan_draw_command_buffers(3, 6, 300);
    assert_eq!(plan.len(), 3);
    for d in &plan {
        assert_eq!(d.vertex_count, 6);
        assert_eq!(d.instance_count, 300);
        assert_eq!(d.first_vertex, 0);
        assert_eq!(d.first_instance, 0);
    }
}

#[test]
fn palette_index_wraps_a_plain_index() {
    let p = PaletteIndex { idx: 4 };
    assert_eq!(p.idx, 4);
}
