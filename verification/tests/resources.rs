use vulkan_engine::renderer::allocator::{
    Allocation, AllocationFailure, AllocatorError, BufferUsage, MemoryLocation, RendererAllocator,
};
use vulkan_engine::renderer::buffer::AllocatedBuffer;
use vulkan_engine::renderer::lifecycle::{DestroyStep, Resource};
use vulkan_engine::renderer::mesh::{read_vertices, Mesh, MeshError, Vector3, Vertex};

fn region(memory: u64, offset: u64, size: u64) -> Allocation {
    Allocation { memory, offset, size, mapped: true }
}

fn vector(x: f32, y: f32, z: f32) -> Vector3 {
    Vector3 { x: x.to_bits(), y: y.to_bits(), z: z.to_bits() }
}

fn vertices(count: usize) -> Vec<Vertex> {
    (0..count)
        .map(|i| {
            let f = i as f32;
            Vertex::with(
                vector(f, -f, 0.5 * f),
                vector(0.0, 0.0, 1.0),
                Vector3 { x: i as u32, y: 0xdead_beef, z: u32::MAX - i as u32 },
            )
        })
        .collect()
}

fn overlapping(a: &Allocation, b: &Allocation) -> bool {
    a.memory == b.memory && a.offset < b.offset + b.size && b.offset < a.offset + a.size
}

#[test]
fn regions_side_by_side_are_recorded() {
    let mut allocator = RendererAllocator::new();
    assert_eq!(
        allocator.allocate_buffer(1, Ok(region(9, 0, 64))),
        Ok(AllocatedBuffer { buffer: 1, allocation: Some(region(9, 0, 64)) })
    );
    assert!(allocator.allocate_buffer(2, Ok(region(9, 64, 64))).is_ok());
    assert!(allocator.allocate_buffer(3, Ok(region(9, 200, 1))).is_ok());
    assert!(allocator.allocate_buffer(4, Ok(region(8, 0, 1000))).is_ok());
    assert_eq!(
        allocator.live,
        vec![region(9, 0, 64), region(9, 64, 64), region(9, 200, 1), region(8, 0, 1000)]
    );
}

#[test]
fn overlapping_region_is_refused() {
    let mut allocator = RendererAllocator::new();
    allocator.allocate_buffer(1, Ok(region(9, 100, 50))).unwrap();
    for (offset, size) in [(100, 50), (149, 1), (0, 101), (120, 5), (90, 100)] {
        assert_eq!(
            allocator.allocate_buffer(2, Ok(region(9, offset, size))),
            Err(AllocatorError::Overlap)
        );
    }
    assert_eq!(allocator.live, vec![region(9, 100, 50)]);
    assert!(allocator.allocate_buffer(2, Ok(region(9, 150, 1))).is_ok());
    assert!(allocator.allocate_buffer(3, Ok(region(9, 0, 100))).is_ok());
}

#[test]
fn empty_and_endless_regions_are_refused() {
    let mut allocator = RendererAllocator::new();
    assert_eq!(allocator.allocate_buffer(1, Ok(region(9, 5, 0))), Err(AllocatorError::Empty));
    assert_eq!(
        allocator.allocate_buffer(1, Ok(region(9, u64::MAX, 1))),
        Err(AllocatorError::OutOfRange)
    );
    assert_eq!(
        allocator.allocate_buffer(1, Ok(region(9, 2, u64::MAX - 1))),
        Err(AllocatorError::OutOfRange)
    );
    assert!(allocator.allocate_buffer(1, Ok(region(9, 1, u64::MAX - 1))).is_ok());
}

#[test]
fn failure_of_the_allocator_is_passed_on() {
    let mut allocator = RendererAllocator::new();
    assert_eq!(
        allocator.allocate_buffer(1, Err(AllocationFailure::OutOfMemory)),
        Err(AllocatorError::OutOfMemory)
    );
    assert_eq!(
        allocator.allocate_buffer(1, Err(AllocationFailure::NoCompatibleMemoryType)),
        Err(AllocatorError::NoCompatibleMemoryType)
    );
    assert_eq!(allocator.allocate_buffer(1, Err(AllocationFailure::Other)), Err(AllocatorError::Failed));
    assert!(allocator.live.is_empty());
}

#[test]
fn second_free_is_refused() {
    let mut allocator = RendererAllocator::new();
    allocator.allocate_buffer(1, Ok(region(9, 0, 64))).unwrap();
    allocator.allocate_buffer(2, Ok(region(9, 64, 64))).unwrap();
    assert_eq!(allocator.free(region(9, 0, 64)), Ok(()));
    assert_eq!(allocator.live, vec![region(9, 64, 64)]);
    assert_eq!(allocator.free(region(9, 0, 64)), Err(AllocatorError::NotLive));
    assert_eq!(allocator.live, vec![region(9, 64, 64)]);
    assert_eq!(allocator.free(region(9, 64, 63)), Err(AllocatorError::NotLive));
    assert_eq!(allocator.free(region(7, 64, 64)), Err(AllocatorError::NotLive));
    assert_eq!(allocator.free(region(9, 64, 64)), Ok(()));
    assert!(allocator.live.is_empty());
}

#[test]
fn freed_region_can_be_used_again() {
    let mut allocator = RendererAllocator::new();
    allocator.allocate_buffer(1, Ok(region(9, 0, 64))).unwrap();
    allocator.free(region(9, 0, 64)).unwrap();
    assert!(allocator.allocate_buffer(2, Ok(region(9, 32, 64))).is_ok());
}

#[test]
fn live_regions_never_overlap() {
    let mut allocator = RendererAllocator::new();
    let mut seed: u64 = 12345;
    for round in 0..400u64 {
        seed = seed.wrapping_mul(6364136223846793005).wrapping_add(1442695040888963407);
        let memory = (seed >> 60) % 3;
        let offset = (seed >> 20) % 1000;
        let size = (seed >> 40) % 120;
        if round % 3 == 2 && !allocator.live.is_empty() {
            let victim = allocator.live[(seed % allocator.live.len() as u64) as usize];
            assert_eq!(allocator.free(victim), Ok(()));
            assert_eq!(allocator.free(victim), Err(AllocatorError::NotLive));
        } else {
            let _ = allocator.allocate_buffer(round, Ok(region(memory, offset, size)));
        }
        for (i, a) in allocator.live.iter().enumerate() {
            assert!(a.size > 0);
            for b in allocator.live.iter().skip(i + 1) {
                assert!(!overlapping(a, b));
            }
        }
        for memory in 0..3 {
            let used: u64 = allocator.live.iter().filter(|a| a.memory == memory).map(|a| a.size).sum();
            assert!(used <= 1120);
        }
    }
}

#[test]
fn allocator_is_released_once_and_only_when_unused() {
    let mut allocator = RendererAllocator::new();
    allocator.allocate_buffer(1, Ok(region(9, 0, 64))).unwrap();
    assert_eq!(allocator.cleanup(), Err(AllocatorError::StillInUse));
    assert!(!allocator.released);
    allocator.free(region(9, 0, 64)).unwrap();
    assert_eq!(allocator.cleanup(), Ok(DestroyStep::ReleaseAllocator));
    assert!(allocator.released);
    assert_eq!(allocator.cleanup(), Err(AllocatorError::Released));
    assert_eq!(allocator.allocate_buffer(1, Ok(region(9, 0, 64))), Err(AllocatorError::Released));
    assert_eq!(allocator.free(region(9, 0, 64)), Err(AllocatorError::Released));
}

#[test]
fn buffer_is_destroyed_before_its_memory_is_freed() {
    let mut allocator = RendererAllocator::new();
    let mut buffer = allocator.allocate_buffer(5, Ok(region(9, 128, 64))).unwrap();
    let cleanup = buffer.cleanup(&mut allocator);
    assert_eq!(
        cleanup.steps,
        vec![DestroyStep::Destroy(Resource::Buffer, 5), DestroyStep::FreeAllocation(9, 128)]
    );
    assert_eq!(cleanup.freed, Ok(()));
    assert_eq!(buffer.allocation, None);
    assert!(allocator.live.is_empty());
    let again = buffer.cleanup(&mut allocator);
    assert_eq!(again.steps, vec![DestroyStep::Destroy(Resource::Buffer, 5)]);
    assert_eq!(again.freed, Ok(()));
}

#[test]
fn buffer_with_memory_of_another_allocator_only_loses_its_handle() {
    let mut allocator = RendererAllocator::new();
    let mut buffer = AllocatedBuffer { buffer: 5, allocation: Some(region(9, 128, 64)) };
    let cleanup = buffer.cleanup(&mut allocator);
    assert_eq!(cleanup.steps, vec![DestroyStep::Destroy(Resource::Buffer, 5)]);
    assert_eq!(cleanup.freed, Err(AllocatorError::NotLive));
    let mut released = RendererAllocator::new();
    released.cleanup().unwrap();
    let mut buffer = AllocatedBuffer { buffer: 6, allocation: Some(region(9, 128, 64)) };
    assert_eq!(buffer.cleanup(&mut released).freed, Err(AllocatorError::Released));
}

#[test]
fn vertex_bytes_are_the_floats_lowest_byte_first() {
    let mut mesh = Mesh::empty();
    mesh.vertices.push(Vertex::with(
        vector(1.0, -1.0, 0.0),
        vector(0.5, 2.0, 0.0),
        Vector3 { x: 0x0403_0201, y: 0, z: 0xffff_ffff },
    ));
    let bytes = mesh.vertex_bytes();
    assert_eq!(
        bytes,
        vec![
            0x00, 0x00, 0x80, 0x3f, 0x00, 0x00, 0x80, 0xbf, 0x00, 0x00, 0x00, 0x00, 0x00, 0x00, 0x00,
            0x3f, 0x00, 0x00, 0x00, 0x40, 0x00, 0x00, 0x00, 0x00, 0x01, 0x02, 0x03, 0x04, 0x00, 0x00,
            0x00, 0x00, 0xff, 0xff, 0xff, 0xff,
        ]
    );
    let mut expected = vec![];
    for f in [1.0f32, -1.0, 0.0, 0.5, 2.0, 0.0] {
        expected.extend_from_slice(&f.to_le_bytes());
    }
    assert_eq!(&bytes[..24], &expected[..]);
}

fn round_trip(count: usize) {
    let mut allocator = RendererAllocator::new();
    let mut mesh = Mesh::empty();
    mesh.vertices = vertices(count);
    let begun = mesh.begin_upload(&mut allocator).unwrap();
    assert!(begun.old_buffer.is_none());
    let request = begun.request.unwrap();
    assert_eq!(request.size, 36 * count as u64);
    assert_eq!(request.usage, BufferUsage::VertexBuffer);
    assert_eq!(request.location, MemoryLocation::CpuToGpu);
    assert!(request.linear);
    let buffer = allocator.allocate_buffer(3, Ok(region(9, 256, request.size))).unwrap();
    let bytes = mesh.upload(buffer).unwrap();
    assert_eq!(bytes.len(), 36 * count);
    assert_eq!(mesh.vertex_buffer, Some(buffer));
    assert_eq!(read_vertices(&bytes), Some(vertices(count)));
}

#[test]
fn upload_of_one_vertex_reads_back() {
    round_trip(1);
}

#[test]
fn upload_of_three_vertices_reads_back() {
    round_trip(3);
}

#[test]
fn upload_of_a_thousand_vertices_reads_back() {
    round_trip(1000);
}

#[test]
fn upload_of_no_vertices_needs_no_buffer() {
    let mut allocator = RendererAllocator::new();
    let mut mesh = Mesh::empty();
    assert_eq!(mesh.byte_size(), Ok(0));
    let begun = mesh.begin_upload(&mut allocator).unwrap();
    assert!(begun.old_buffer.is_none());
    assert_eq!(begun.request, None);
    assert!(mesh.vertex_buffer.is_none());
    assert!(mesh.vertex_bytes().is_empty());
    assert_eq!(read_vertices(&mesh.vertex_bytes()), Some(vec![]));
}

#[test]
fn upload_gives_up_the_old_buffer_first() {
    let mut allocator = RendererAllocator::new();
    let mut mesh = Mesh::empty();
    mesh.vertices = vertices(2);
    mesh.begin_upload(&mut allocator).unwrap();
    let first = allocator.allocate_buffer(3, Ok(region(9, 0, 72))).unwrap();
    mesh.upload(first).unwrap();
    mesh.vertices = vertices(5);
    let begun = mesh.begin_upload(&mut allocator).unwrap();
    let old = begun.old_buffer.unwrap();
    assert_eq!(
        old.steps,
        vec![DestroyStep::Destroy(Resource::Buffer, 3), DestroyStep::FreeAllocation(9, 0)]
    );
    assert_eq!(old.freed, Ok(()));
    assert!(mesh.vertex_buffer.is_none());
    assert!(allocator.live.is_empty());
    assert_eq!(begun.request.unwrap().size, 180);
    let second = allocator.allocate_buffer(4, Ok(region(9, 0, 180))).unwrap();
    assert_eq!(mesh.upload(second).unwrap().len(), 180);
    assert_eq!(mesh.vertex_buffer, Some(second));
}

#[test]
fn upload_refuses_a_buffer_that_cannot_hold_the_vertices() {
    let mut mesh = Mesh::empty();
    mesh.vertices = vertices(2);
    let unbound = AllocatedBuffer { buffer: 1, allocation: None };
    assert_eq!(mesh.upload(unbound), Err(MeshError::NotMapped));
    let unmapped =
        AllocatedBuffer { buffer: 1, allocation: Some(Allocation { memory: 9, offset: 0, size: 72, mapped: false }) };
    assert_eq!(mesh.upload(unmapped), Err(MeshError::NotMapped));
    let small = AllocatedBuffer { buffer: 1, allocation: Some(region(9, 0, 71)) };
    assert_eq!(mesh.upload(small), Err(MeshError::TooSmall));
    assert!(mesh.vertex_buffer.is_none());
    let fits = AllocatedBuffer { buffer: 1, allocation: Some(region(9, 0, 72)) };
    assert!(mesh.upload(fits).is_ok());
    assert_eq!(mesh.upload(fits), Err(MeshError::BufferInPlace));
    assert_eq!(mesh.vertex_buffer, Some(fits));
}

#[test]
fn mesh_cleanup_is_safe_without_a_buffer() {
    let mut allocator = RendererAllocator::new();
    let mut mesh = Mesh::empty();
    assert!(mesh.cleanup(&mut allocator).is_none());
    mesh.vertices = vertices(1);
    mesh.begin_upload(&mut allocator).unwrap();
    let buffer = allocator.allocate_buffer(3, Ok(region(9, 0, 36))).unwrap();
    mesh.upload(buffer).unwrap();
    let cleanup = mesh.cleanup(&mut allocator).unwrap();
    assert_eq!(
        cleanup.steps,
        vec![DestroyStep::Destroy(Resource::Buffer, 3), DestroyStep::FreeAllocation(9, 0)]
    );
    assert!(mesh.vertex_buffer.is_none());
    assert_eq!(mesh.vertices, vertices(1));
    assert!(mesh.cleanup(&mut allocator).is_none());
    assert_eq!(allocator.cleanup(), Ok(DestroyStep::ReleaseAllocator));
}

#[test]
fn bytes_that_are_no_whole_vertices_are_not_read() {
    assert_eq!(read_vertices(&vec![0u8; 35]), None);
    assert_eq!(read_vertices(&vec![0u8; 37]), None);
    assert_eq!(read_vertices(&vec![0u8; 72]).map(|v| v.len()), Some(2));
}

#[test]
fn ledger_knows_whether_it_is_well_formed() {
    let mut allocator = RendererAllocator::new();
    assert!(allocator.is_well_formed());
    allocator.allocate_buffer(1, Ok(region(9, 0, 64))).unwrap();
    allocator.allocate_buffer(2, Ok(region(9, 64, 64))).unwrap();
    allocator.allocate_buffer(3, Ok(region(8, 32, 64))).unwrap();
    assert!(allocator.is_well_formed());
    allocator.live.push(region(9, 100, 64));
    assert!(!allocator.is_well_formed());
    allocator.live.pop();
    allocator.live.push(region(9, 200, 0));
    assert!(!allocator.is_well_formed());
    allocator.live.pop();
    allocator.live.push(region(9, u64::MAX, 1));
    assert!(!allocator.is_well_formed());
    allocator.live.pop();
    assert!(allocator.is_well_formed());
    allocator.released = true;
    assert!(!allocator.is_well_formed());
    allocator.live.clear();
    assert!(allocator.is_well_formed());
}
