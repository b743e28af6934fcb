use skycam::config::{
    AnyNodeName, CropMode, Dims, ScaleDims, ScalerSetup, SoftwareScaling, SoftwareScalingAlg,
    VpssScaling,
};
use skycam::raster::{Filter, RgbImage};
use skycam::scaler::{
    has_concurrency, max_concurrency, ResizeStep, Scaled, Scaler, ScalerInner, SoftwarePass, SoftwareScaler,
};

fn software(alg: SoftwareScalingAlg, dims: ScaleDims) -> SoftwareScaling {
    SoftwareScaling { alg, dims: AnyNodeName(dims) }
}

fn absolute(width: u32, height: u32) -> ScaleDims {
    ScaleDims::Absolute(Dims { width, height })
}

#[test]
fn algorithms_have_filters() {
    for (alg, filter) in [
        (SoftwareScalingAlg::Nearest, Filter::Nearest),
        (SoftwareScalingAlg::Linear, Filter::Triangle),
        (SoftwareScalingAlg::Cubic, Filter::CatmullRom),
        (SoftwareScalingAlg::Gaussian, Filter::Gaussian),
        (SoftwareScalingAlg::Lanczos, Filter::Lanczos3),
    ] {
        let pass = SoftwarePass::new(software(alg, ScaleDims::Input));
        assert_eq!(pass.filter, filter);
        assert_eq!(pass.dims, ScaleDims::Input);
    }
}

#[test]
fn down_and_up_pass() {
    let scaler = SoftwareScaler::new(
        software(SoftwareScalingAlg::Nearest, absolute(1, 1)),
        Some(software(SoftwareScalingAlg::Nearest, ScaleDims::Input)),
        2,
    );
    let image = RgbImage { width: 3, height: 1, data: vec![1, 1, 1, 5, 6, 7, 9, 9, 9] };
    assert!(scaler.can_scale(3, 1));
    let result = scaler.scale_image(&image);
    assert_eq!((result.width, result.height), (3, 1));
    assert_eq!(result.data, [5, 6, 7, 5, 6, 7, 5, 6, 7]);
}

#[test]
fn input_size_passes_change_nothing() {
    let scaler = SoftwareScaler::new(
        software(SoftwareScalingAlg::Lanczos, ScaleDims::Input),
        Some(software(SoftwareScalingAlg::Gaussian, ScaleDims::Input)),
        2,
    );
    let images = vec![
        RgbImage { width: 1, height: 1, data: vec![1, 2, 3] },
        RgbImage { width: 1, height: 2, data: vec![4, 5, 6, 7, 8, 9] },
    ];
    let results = scaler.scale_batch(&images);
    assert_eq!(results.len(), 2);
    assert_eq!(results[0].data, [1, 2, 3]);
    assert_eq!(results[1].data, [4, 5, 6, 7, 8, 9]);
}

#[test]
fn concurrency_is_two_thirds_but_at_least_two() {
    assert_eq!(max_concurrency(None), 3);
    assert_eq!(max_concurrency(Some(1)), 2);
    assert_eq!(max_concurrency(Some(3)), 2);
    assert_eq!(max_concurrency(Some(5)), 3);
    assert_eq!(max_concurrency(Some(12)), 8);
    assert!(has_concurrency(None));
    assert!(has_concurrency(Some(0x7fff_ffff)));
    assert!(!has_concurrency(Some(0x8000_0000)));
}

#[test]
fn software_scaler_cuts_and_scales() {
    let setup = ScalerSetup::Software {
        crop_mode: Some(AnyNodeName(CropMode::Grid(Dims { width: 2, height: 1 }))),
        down: software(SoftwareScalingAlg::Nearest, absolute(1, 2)),
        up: None,
    };
    let scaler = Scaler::new(&setup, Some(9));
    assert_eq!(scaler.recommended_concurrency(), 6);
    let image = image::RgbImage::from_raw(2, 1, vec![1, 2, 3, 4, 5, 6]).unwrap();
    match scaler.run(image::DynamicImage::ImageRgb8(image)) {
        Some(Scaled::Done(parts)) => {
            assert_eq!(parts.len(), 2);
            assert_eq!(parts[0].data, [1, 2, 3, 1, 2, 3]);
            assert_eq!(parts[1].data, [4, 5, 6, 4, 5, 6]);
        }
        other => panic!("{other:?}"),
    }
}

#[test]
fn device_scaler_hands_the_parts_out() {
    let setup = ScalerSetup::Vpss {
        vdma_device: "/dev/vdma0".to_string(),
        crop_mode: None,
        down: VpssScaling {
            device: "/dev/vpss0".to_string(),
            dims: AnyNodeName(absolute(4, 4)),
            nn: true,
        },
        up: None,
    };
    let scaler = Scaler::new(&setup, None);
    assert!(matches!(scaler.inner, ScalerInner::Vpss(_)));
    let image = image::RgbImage::from_raw(1, 1, vec![1, 2, 3]).unwrap();
    match scaler.run(image::DynamicImage::ImageRgb8(image)) {
        Some(Scaled::OnDevice(parts)) => {
            assert_eq!(parts.len(), 1);
            assert_eq!(parts[0].data, [1, 2, 3]);
        }
        other => panic!("{other:?}"),
    }
}

#[test]
fn a_grid_without_cells_cannot_be_cut() {
    let setup = ScalerSetup::Software {
        crop_mode: Some(AnyNodeName(CropMode::Grid(Dims { width: 0, height: 1 }))),
        down: software(SoftwareScalingAlg::Nearest, ScaleDims::Input),
        up: None,
    };
    let scaler = Scaler::new(&setup, None);
    assert!(!scaler.can_run(10, 10));
    let image = image::RgbImage::from_raw(1, 1, vec![1, 2, 3]).unwrap();
    assert!(scaler.run(image::DynamicImage::ImageRgb8(image)).is_none());
}

#[test]
fn passes_tell_every_resampling_step() {
    let scaler = SoftwareScaler::new(
        software(SoftwareScalingAlg::Cubic, absolute(20, 10)),
        Some(software(SoftwareScalingAlg::Lanczos, ScaleDims::Input)),
        2,
    );
    assert_eq!(
        scaler.passes(300, 200),
        (
            ResizeStep { width: 20, height: 10, filter: Filter::CatmullRom },
            Some(ResizeStep { width: 300, height: 200, filter: Filter::Lanczos3 }),
        )
    );
    let scaler =
        SoftwareScaler::new(software(SoftwareScalingAlg::Gaussian, ScaleDims::Input), None, 2);
    assert_eq!(
        scaler.passes(3, 2),
        (ResizeStep { width: 3, height: 2, filter: Filter::Gaussian }, None)
    );
}

#[test]
fn long_rows_are_scaled() {
    let scaler =
        SoftwareScaler::new(software(SoftwareScalingAlg::Linear, absolute(1, 1)), None, 2);
    assert!(scaler.can_scale(1_048_577, 1));
    let row = RgbImage { width: 1_048_577, height: 1, data: [7, 8, 9].repeat(1_048_577) };
    assert_eq!(scaler.scale_image(&row).data, [7, 8, 9]);
}

#[test]
fn every_filter_shows_the_picture() {
    let image = RgbImage {
        width: 4,
        height: 1,
        data: vec![0, 0, 0, 0, 0, 0, 250, 250, 250, 250, 250, 250],
    };
    for alg in [
        SoftwareScalingAlg::Nearest,
        SoftwareScalingAlg::Linear,
        SoftwareScalingAlg::Cubic,
        SoftwareScalingAlg::Gaussian,
        SoftwareScalingAlg::Lanczos,
    ] {
        let scaler = SoftwareScaler::new(software(alg, absolute(8, 1)), None, 2);
        let result = scaler.scale_image(&image);
        assert_eq!(result.data.len(), 24);
        assert!(result.data[0] < 40);
        assert!(result.data[23] > 210);
    }
}
