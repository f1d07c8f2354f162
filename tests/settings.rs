use vis_core::config::Config;
use vis_core::fourier::{configured_window, FourierSettings};
use vis_core::recorder::{
    backend_from_name, Backend, CPalBuilder, CaptureSettings, PulseBuilder, RecorderBuilder,
};
use vis_core::samples::SampleBuffer;
use vis_core::window::{self, Window};

#[test]
fn test_init() {
    let settings = FourierSettings::resolve(Some(512), Some(8), Some(8000), &Config::empty());
    assert_eq!(window::from_str("nuttall").unwrap(), Window::Nuttall);
    assert_eq!((settings.length, settings.downsample, settings.rate), (512, 8, 8000));
    assert_eq!(settings.buckets(), 256);
}

#[test]
fn test_analyze() {
    let settings = FourierSettings::resolve(Some(512), Some(2), Some(8000), &Config::empty());
    assert_eq!(window::from_str("nuttall"), Some(Window::Nuttall));

    let mut buf = SampleBuffer::new(1024, 8000, [0.0f32; 2]);

    buf.push(&[[1.0; 2]; 1024]);

    assert_eq!(buf.rate(), settings.rate);
    assert!(settings.fits(buf.len()));
    let read = buf.iter(settings.length, settings.downsample);
    assert_eq!(read.len(), 512);
    assert!(read.iter().all(|s| *s == [1.0; 2]));
}

#[test]
fn window_names() {
    let names = [
        ("blackman", Window::Blackman),
        ("hamming", Window::Hamming),
        ("hanning", Window::Hanning),
        ("none", Window::Rectangular),
        ("nuttall", Window::Nuttall),
        ("sine", Window::Sine),
        ("triangular", Window::Triangular),
    ];
    for (name, w) in names {
        assert_eq!(window::from_str(name), Some(w));
    }
    assert_eq!(window::from_str("hann"), None);
    assert_eq!(window::from_str(""), None);
    assert_eq!(window::from_str("Nuttall"), None);
}

#[test]
fn fourier_defaults_and_config() {
    let s = FourierSettings::resolve(None, None, None, &Config::empty());
    assert_eq!((s.length, s.downsample, s.rate), (512, 5, 8000));
    let mut config = Config::empty();
    config.fourier_length = Some(1024);
    config.fourier_downsample = Some(3);
    config.rate = Some(48000);
    let s = FourierSettings::resolve(None, Some(1), None, &config);
    assert_eq!((s.length, s.downsample, s.rate), (1024, 1, 48000));
    assert!(s.fits(1024));
    assert!(!s.fits(1023));
    let huge = FourierSettings { length: usize::MAX, downsample: 2, rate: 8000 };
    assert!(!huge.fits(usize::MAX));
}

#[test]
fn configured_window_lookup() {
    let mut config = Config::empty();
    assert_eq!(configured_window(&config), Some(Window::Rectangular));
    config.fourier_window = Some("blackman".to_string());
    assert_eq!(configured_window(&config), Some(Window::Blackman));
    config.fourier_window = Some("gauss".to_string());
    assert_eq!(configured_window(&config), None);
}

#[test]
fn recorder_settings() {
    let config = Config::empty();
    let r = RecorderBuilder::new().settings(&config);
    assert_eq!(
        r,
        Some((Backend::Cpal, CaptureSettings { rate: 8000, buffer_size: 16000, read_size: 32 }))
    );

    let mut b = RecorderBuilder::new();
    b.rate(44100).buffer_size(4096).read_size(64).recorder("pulse");
    assert_eq!(
        b.settings(&config),
        Some((Backend::Pulse, CaptureSettings { rate: 44100, buffer_size: 4096, read_size: 64 }))
    );

    let mut b = RecorderBuilder::new();
    b.recorder("jack");
    assert_eq!(b.settings(&config), None);

    let mut config = Config::empty();
    config.recorder = Some("pulse".to_string());
    config.read_size = Some(128);
    let r = RecorderBuilder::new().settings(&config).unwrap();
    assert_eq!(r.0, Backend::Pulse);
    assert_eq!(r.1.read_size, 128);
    assert_eq!(backend_from_name("cpal"), Some(Backend::Cpal));
    assert_eq!(backend_from_name("alsa"), None);
}

#[test]
fn cpal_settings() {
    let config = Config::empty();
    assert_eq!(
        CPalBuilder::new().settings(&config),
        CaptureSettings { rate: 8000, buffer_size: 16000, read_size: 256 }
    );
    let mut b = CPalBuilder::new();
    b.rate(48000).read_size(512);
    assert_eq!(
        b.settings(&config),
        CaptureSettings { rate: 48000, buffer_size: 16000, read_size: 256 }
    );
    b.buffer_size(2048);
    assert_eq!(
        b.settings(&config),
        CaptureSettings { rate: 48000, buffer_size: 2048, read_size: 2048 }
    );
}

#[test]
fn pulse_settings() {
    let mut config = Config::empty();
    let s = PulseBuilder::new().settings(&config);
    assert_eq!(s.capture, CaptureSettings { rate: 8000, buffer_size: 16000, read_size: 32 });
    assert_eq!(s.name, "visualizer2");
    assert_eq!(s.description, "Pulseaudio recorder for visualizer2");
    assert_eq!(s.device, None);

    config.pulse_device = Some("monitor".to_string());
    let mut b = PulseBuilder::new();
    b.name("vis", "spectrum").rate(16000);
    let s = b.settings(&config);
    assert_eq!(s.name, "vis");
    assert_eq!(s.description, "spectrum");
    assert_eq!(s.device.as_deref(), Some("monitor"));
    assert_eq!(s.capture.rate, 16000);

    b.device("alsa_input").buffer_size(1000);
    let s = b.settings(&config);
    assert_eq!(s.device.as_deref(), Some("alsa_input"));
    assert_eq!(s.capture.read_size, 1000);
}
