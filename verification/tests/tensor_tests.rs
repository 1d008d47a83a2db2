use ort::engine::Engine;
use ort::error::ErrorCode;
use ort::memory::{AllocationDevice, Allocator};
use ort::tensor::TensorElementType;
use ort::value::{
    DynTensorValueType, DynValue, Tensor, TensorRef, TensorRefMut, TensorValueType, ValueType,
    ValueTypeMarker,
};
use ort::AsPointer;

#[test]
fn tensor_value_roundtrip() {
    let mut engine = Engine::new();
    assert_eq!(engine.issued(), 0);
    let v: Vec<i64> = vec![1, 2, 3, 4, 5];
    let value = Tensor::from_array(&mut engine, (vec![v.len() as i64], v.clone())).unwrap();
    assert_eq!(engine.issued(), 1);

    assert_eq!(value.dtype().tensor_type(), Some(TensorElementType::Int64));
    assert_eq!(
        value.dtype(),
        &ValueType::Tensor {
            ty: TensorElementType::Int64,
            dimensions: vec![v.len() as i64],
            dimension_symbols: vec![None],
        }
    );

    let (shape, data) = value.extract_raw_tensor(&engine);
    assert_eq!(shape, vec![v.len() as i64]);
    assert_eq!(data, v);
}

#[test]
fn tensor_borrowed_view_roundtrip() {
    let mut engine = Engine::new();
    let v: Vec<i64> = vec![1, 2, 3, 4, 5];
    let value = TensorRef::from_array_view(&mut engine, (vec![v.len() as i64], &v[..])).unwrap();
    let (shape, data) = value.as_value().extract_raw_tensor(&engine);
    assert_eq!(shape, vec![5]);
    assert_eq!(data, v);
    // the borrowed source is untouched and still independently readable
    assert_eq!(v, vec![1, 2, 3, 4, 5]);
}

#[test]
fn tensor_raw_input_forms() {
    let mut engine = Engine::new();
    let v: Vec<i64> = vec![1, 2, 3, 4, 5];

    let shape = [v.len()];
    let value_arc_box =
        TensorRef::from_array_view(&mut engine, (shape, std::sync::Arc::new(v.clone().into_boxed_slice())))
            .unwrap();
    let value_box = Tensor::from_array(&mut engine, (shape, v.clone().into_boxed_slice())).unwrap();
    let value_vec = Tensor::from_array(&mut engine, (shape, v.clone())).unwrap();
    let value_slice = TensorRef::from_array_view(&mut engine, (shape, &v[..])).unwrap();

    assert_eq!(value_arc_box.as_value().try_extract_raw_tensor::<i64>(&engine).unwrap().1, v);
    assert_eq!(value_box.extract_raw_tensor(&engine).1, v);
    assert_eq!(value_vec.extract_raw_tensor(&engine).1, v);
    assert_eq!(value_slice.as_value().try_extract_raw_tensor::<i64>(&engine).unwrap().1, v);
}

#[test]
fn tensor_index_reads_and_writes() {
    let mut engine = Engine::new();
    let tensor: Tensor<i64> =
        Tensor::new(&mut engine, &Allocator::default(), [1usize, 3, 224, 224]).unwrap();

    assert_eq!(tensor.memory_info().allocation_device(), AllocationDevice::Cpu);
    assert_eq!(tensor.index(&engine, &[0, 2, 42, 42]), 0);

    tensor.write_index(&mut engine, &[0, 2, 42, 42], 1);
    assert_eq!(tensor.index(&engine, &[0, 2, 42, 42]), 1);

    for y in 0..224 {
        for x in 0..224 {
            tensor.write_index(&mut engine, &[0, 1, y, x], -1);
        }
    }
    assert_eq!(tensor.index(&engine, &[0, 1, 0, 0]), -1);
    assert_eq!(tensor.index(&engine, &[0, 1, 223, 223]), -1);

    assert_eq!(tensor.index(&engine, &[0, 2, 42, 42]), 1);
}

#[test]
fn tensor_mutation_visible_when_ownership_transferred() {
    let mut engine = Engine::new();
    let v: Vec<i64> = vec![0, 1, 2, 3, 4];
    let tensor = Tensor::from_array(&mut engine, (vec![5i64], v)).unwrap();
    tensor.write_index(&mut engine, &[3], 42);
    let (_, data) = tensor.extract_raw_tensor(&engine);
    assert_eq!(data, vec![0, 1, 2, 42, 4]);
}

#[test]
fn tensor_shape_validation_names_dimension() {
    let mut engine = Engine::new();
    let err = Tensor::<i64>::from_array(&mut engine, (vec![2i64, 0, 3], vec![0i64; 6])).unwrap_err();
    assert_eq!(err.code, ErrorCode::InvalidArgument);
    assert_eq!(
        err.message(),
        "invalid dimension at index 1; all dimensions must be >= 1 when creating a tensor from raw data"
    );

    let err = Tensor::<i64>::from_array(&mut engine, (vec![-1i64, 3], vec![0i64; 6])).unwrap_err();
    assert_eq!(err.code, ErrorCode::InvalidArgument);
    assert_eq!(
        err.message(),
        "invalid dimension at index 0; all dimensions must be >= 1 when creating a tensor from raw data"
    );
}

#[test]
fn tensor_shape_validation_names_counts() {
    let mut engine = Engine::new();
    let err = Tensor::<i64>::from_array(&mut engine, (vec![2i64, 3], vec![0i64; 5])).unwrap_err();
    assert_eq!(err.code, ErrorCode::InvalidArgument);
    assert_eq!(
        err.message(),
        "cannot create a tensor from raw data; the shape denotes 6 elements but the data provided holds 5 elements"
    );
}

#[test]
fn tensor_scalar_shape() {
    let mut engine = Engine::new();
    let value = Tensor::from_array(&mut engine, ((), vec![7i64])).unwrap();
    let (shape, data) = value.extract_raw_tensor(&engine);
    assert_eq!(shape, Vec::<i64>::new());
    assert_eq!(data, vec![7]);

    let err = Tensor::<i64>::from_array(&mut engine, ((), vec![7i64, 8])).unwrap_err();
    assert_eq!(err.code, ErrorCode::InvalidArgument);
    assert_eq!(
        err.message(),
        "expected data to have a length of exactly 1 for a scalar shape"
    );
}

#[test]
fn tensor_release_fires_exactly_once() {
    let mut engine = Engine::new();
    let v: Vec<i64> = vec![1, 2, 3, 4, 5, 6];
    let tensor = Tensor::from_array(&mut engine, (vec![2i64, 3], v)).unwrap();
    let handle = tensor.ptr();

    let clone_a = tensor.clone_ref(&mut engine);
    let clone_b = tensor.clone_ref(&mut engine);
    assert_eq!(engine.ref_count(handle), 3);

    // relabelling a clone changes nothing about its counted reference
    let erased = clone_b.upcast();
    erased.drop_ref(&mut engine);
    assert_eq!(engine.releases(handle), 0);
    tensor.drop_ref(&mut engine);
    assert_eq!(engine.releases(handle), 0);
    clone_a.drop_ref(&mut engine);
    assert_eq!(engine.releases(handle), 1);
    assert!(!engine.live(handle));
}

#[test]
fn tensor_end_to_end_scenario() {
    let mut engine = Engine::new();
    let data: Vec<i64> = vec![1, 2, 3, 4, 5, 6];
    let value = TensorRef::from_array_view(&mut engine, (vec![2i64, 3], &data[..])).unwrap();

    let (shape, extracted) = value.as_value().try_extract_raw_tensor::<i64>(&engine).unwrap();
    assert_eq!(shape, vec![2, 3]);
    assert_eq!(extracted, data);

    let handle = value.as_value().ptr();
    assert_eq!(engine.ref_count(handle), 1);
    assert_eq!(engine.releases(handle), 0);

    value.drop_ref(&mut engine);
    assert_eq!(engine.releases(handle), 1);
    assert!(!engine.live(handle));
    // the borrowed source was never freed by the drop
    assert_eq!(data, vec![1, 2, 3, 4, 5, 6]);
}

#[test]
fn tensor_downcast_soundness() {
    let mut engine = Engine::new();
    let tensor = Tensor::from_array(&mut engine, (vec![3i64], vec![1i64, 2, 3])).unwrap();
    let dynamic = tensor.into_dyn();
    assert!(dynamic.downcast::<TensorValueType<i32>>().is_none());

    let tensor = Tensor::from_array(&mut engine, (vec![3i64], vec![1i64, 2, 3])).unwrap();
    let dynamic = tensor.into_dyn();
    let back = dynamic.downcast::<TensorValueType<i64>>();
    assert!(back.is_some());

    let tensor = Tensor::from_array(&mut engine, (vec![3i64], vec![1i64, 2, 3])).unwrap();
    let dynamic = tensor.into_dyn();
    assert!(dynamic.downcast::<DynTensorValueType>().is_some());

    let tensor = Tensor::from_array(&mut engine, (vec![3i64], vec![1i64, 2, 3])).unwrap();
    let dynamic = DynValue::from(tensor);
    assert!(dynamic.downcast::<TensorValueType<i64>>().is_some());
}

#[test]
fn tensor_upcasts_share_the_handle() {
    let mut engine = Engine::new();
    let mut tensor = Tensor::from_array(&mut engine, (vec![2i64], vec![5i64, 6])).unwrap();
    let handle = tensor.ptr();

    {
        let view = tensor.upcast_ref(&mut engine);
        assert_eq!(engine.ref_count(handle), 2);
        assert_eq!(view.as_value().ptr(), handle);
        assert_eq!(view.as_value().dtype(), tensor.dtype());
        let (_, data) = view.as_value().try_extract_raw_tensor::<i64>(&engine).unwrap();
        assert_eq!(data, vec![5, 6]);
        view.drop_ref(&mut engine);
        assert_eq!(engine.ref_count(handle), 1);
        assert_eq!(engine.releases(handle), 0);
    }
    {
        let view = tensor.upcast_mut(&mut engine);
        assert_eq!(engine.ref_count(handle), 2);
        let (_, data) = view.as_value().try_extract_raw_tensor::<i64>(&engine).unwrap();
        assert_eq!(data, vec![5, 6]);
        view.drop_ref(&mut engine);
        assert_eq!(engine.ref_count(handle), 1);
        assert_eq!(engine.releases(handle), 0);
    }
    let dynamic = tensor.upcast();
    let err = dynamic.try_extract_raw_tensor::<i32>(&engine).unwrap_err();
    assert_eq!(err.code, ErrorCode::Fail);
    assert_eq!(
        err.message(),
        "tried to extract a tensor of element type i32 but the value holds a tensor of element type i64"
    );
    dynamic.drop_ref(&mut engine);
    assert_eq!(engine.releases(handle), 1);
    assert!(!engine.live(handle));
}

#[test]
fn tensor_element_types_roundtrip() {
    let mut engine = Engine::new();

    let t = Tensor::from_array(&mut engine, (vec![3i64], vec![250u8, 0, 7])).unwrap();
    assert_eq!(t.extract_raw_tensor(&engine).1, vec![250u8, 0, 7]);

    let t = Tensor::from_array(&mut engine, (vec![2i64], vec![true, false])).unwrap();
    assert_eq!(t.extract_raw_tensor(&engine).1, vec![true, false]);

    let t = Tensor::from_array(&mut engine, (vec![2i64], vec![u64::MAX, 3])).unwrap();
    assert_eq!(t.extract_raw_tensor(&engine).1, vec![u64::MAX, 3]);

    let t = Tensor::from_array(&mut engine, (vec![2i64], vec![i32::MIN, i32::MAX])).unwrap();
    assert_eq!(t.extract_raw_tensor(&engine).1, vec![i32::MIN, i32::MAX]);
}

#[test]
fn tensor_from_raw_is_external() {
    let mut engine = Engine::new();
    let info = ort::memory::MemoryInfo::new(
        AllocationDevice::Cuda,
        0,
        ort::memory::AllocatorType::Device,
        ort::memory::MemoryType::Default,
    );
    let view: TensorRefMut<'_, i64> =
        TensorRefMut::from_raw(&mut engine, info, 0x1000, vec![1, 3, 8, 8]).unwrap();
    assert_eq!(
        view.as_value().dtype().tensor_type(),
        Some(TensorElementType::Int64)
    );
    assert!(!view.as_value().memory_info().is_cpu_accessible());
}

#[test]
fn calculate_tensor_size_products() {
    assert_eq!(ort::create::calculate_tensor_size(&[2, 3]), 6);
    assert_eq!(ort::create::calculate_tensor_size(&[]), 1);
    assert_eq!(ort::create::calculate_tensor_size(&[4, -1]), 0);
    assert_eq!(ort::create::calculate_tensor_size(&[0, 9]), 0);
    assert_eq!(ort::create::calculate_tensor_size(&[i64::MAX, i64::MAX]), usize::MAX);
}

#[test]
fn tensor_new_rejects_invalid_shape() {
    let mut engine = Engine::new();
    let err = Tensor::<i64>::new(&mut engine, &Allocator::default(), [0usize, 3]).unwrap_err();
    assert_eq!(err.code, ErrorCode::InvalidArgument);
    assert_eq!(
        err.message(),
        "invalid dimension at index 0; all dimensions must be >= 1 when creating a tensor from raw data"
    );
    assert_eq!(engine.issued(), 0);

    let err =
        Tensor::<i64>::new(&mut engine, &Allocator::default(), vec![i64::MAX, i64::MAX]).unwrap_err();
    assert_eq!(err.code, ErrorCode::InvalidArgument);
    assert_eq!(
        err.message(),
        "cannot allocate a tensor of this shape; its element count exceeds the host's addressable size"
    );
    assert_eq!(engine.issued(), 0);
}

#[test]
fn tensor_shared_input_outlives_source() {
    let mut engine = Engine::new();
    let v: Vec<i64> = vec![1, 2, 3, 4, 5];

    let arc = std::sync::Arc::new(v.clone().into_boxed_slice());
    let shape = vec![v.len() as i64];
    let value = TensorRef::from_array_view(&mut engine, (shape, std::sync::Arc::clone(&arc)))
        .unwrap();
    drop(arc);
    assert_eq!(value.as_value().try_extract_raw_tensor::<i64>(&engine).unwrap().1, v);
}

#[test]
fn marker_format_names_the_claimed_kind() {
    assert_eq!(TensorValueType::<i64>::format(), "Tensor<i64>");
    assert_eq!(TensorValueType::<u8>::format(), "Tensor<u8>");
    assert_eq!(DynTensorValueType::format(), "DynTensor");
}
