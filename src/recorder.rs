//! Builders of the capture backends and the settings they resolve to.
use crate::config::{self, Config};
use vstd::prelude::*;

verus! {

/// A capture backend.
#[derive(Clone, Copy, Debug, PartialEq, Eq, Structural)]
pub enum Backend {
    /// Capture through cpal.
    Cpal,
    /// Capture through PulseAudio.
    Pulse,
}

/// The backend a name selects, if any.
pub open spec fn backend_named(name: Seq<char>) -> Option<Backend> {
    if name == "cpal"@ {
        Some(Backend::Cpal)
    } else if name == "pulse"@ {
        Some(Backend::Pulse)
    } else {
        None
    }
}

/// The backend a name selects: `cpal` or `pulse`.
pub fn backend_from_name(name: &str) -> (r: Option<Backend>)
    ensures
        r == backend_named(name@),
{
    let name = name.to_owned();
    if name == "cpal".to_owned() {
        Some(Backend::Cpal)
    } else if name == "pulse".to_owned() {
        Some(Backend::Pulse)
    } else {
        None
    }
}

/// Rate, buffer length and read size of a capture backend.
#[derive(Clone, Copy, Debug, PartialEq, Eq, Structural)]
pub struct CaptureSettings {
    /// Recording rate.
    pub rate: usize,
    /// Length of the sample buffer the backend fills.
    pub buffer_size: usize,
    /// Number of samples read at once.
    pub read_size: usize,
}

/// Builder that picks a capture backend by name.
pub struct RecorderBuilder {
    pub rate: Option<usize>,
    pub buffer_size: Option<usize>,
    pub read_size: Option<usize>,
    pub recorder: Option<String>,
}

impl RecorderBuilder {
    /// A builder with every field unset.
    pub fn new() -> (r: RecorderBuilder)
        ensures
            r.rate.is_none(),
            r.buffer_size.is_none(),
            r.read_size.is_none(),
            r.recorder.is_none(),
    {
        RecorderBuilder { rate: None, buffer_size: None, read_size: None, recorder: None }
    }

    /// Set the recording rate.
    pub fn rate(&mut self, rate: usize) -> (r: &mut RecorderBuilder)
        ensures
            r.rate == Some(rate),
            r.buffer_size == old(self).buffer_size,
            r.read_size == old(self).read_size,
            r.recorder == old(self).recorder,
            *final(self) == *final(r),
    {
        self.rate = Some(rate);
        self
    }

    /// Set the buffer length.
    pub fn buffer_size(&mut self, buffer_size: usize) -> (r: &mut RecorderBuilder)
        ensures
            r.rate == old(self).rate,
            r.buffer_size == Some(buffer_size),
            r.read_size == old(self).read_size,
            r.recorder == old(self).recorder,
            *final(self) == *final(r),
    {
        self.buffer_size = Some(buffer_size);
        self
    }

    /// Set the read size.
    pub fn read_size(&mut self, read_size: usize) -> (r: &mut RecorderBuilder)
        ensures
            r.rate == old(self).rate,
            r.buffer_size == old(self).buffer_size,
            r.read_size == Some(read_size),
            r.recorder == old(self).recorder,
            *final(self) == *final(r),
    {
        self.read_size = Some(read_size);
        self
    }

    /// Set the backend by name.
    pub fn recorder(&mut self, rec: &str) -> (r: &mut RecorderBuilder)
        ensures
            r.rate == old(self).rate,
            r.buffer_size == old(self).buffer_size,
            r.read_size == old(self).read_size,
            r.recorder.is_some() && r.recorder.unwrap()@ == rec@,
            *final(self) == *final(r),
    {
        self.recorder = Some(rec.to_owned());
        self
    }

    /// The backend named by the builder, else by the configuration, else
    /// `cpal`; `None` where that name selects none.
    pub open spec fn selected_backend(&self, config: &Config) -> Option<Backend> {
        backend_named(config::chosen_text(self.recorder, config.recorder).unwrap_or("cpal"@))
    }

    /// The backend and the settings handed to it, or `None` where the
    /// backend named does not exist.
    pub fn settings(&self, config: &Config) -> (r: Option<(Backend, CaptureSettings)>)
        ensures
            match r {
                Some((backend, capture)) => {
                    &&& Some(backend) == self.selected_backend(config)
                    &&& capture == (CaptureSettings {
                        rate: config::chosen(self.rate, config.rate, config::DEFAULT_RATE),
                        buffer_size: config::chosen(
                            self.buffer_size,
                            config.buffer,
                            config::DEFAULT_BUFFER_SIZE,
                        ),
                        read_size: config::chosen(
                            self.read_size,
                            config.read_size,
                            config::DEFAULT_READ_SIZE,
                        ),
                    })
                },
                None => self.selected_backend(config).is_none(),
            },
    {
        let name = config::pick_text(&self.recorder, &config.recorder);
        let backend = match &name {
            Some(n) => backend_from_name(n.as_str()),
            None => backend_from_name("cpal"),
        };
        match backend {
            Some(b) => Some(
                (
                    b,
                    CaptureSettings {
                        rate: config::pick(self.rate, config.rate, config::DEFAULT_RATE),
                        buffer_size: config::pick(
                            self.buffer_size,
                            config.buffer,
                            config::DEFAULT_BUFFER_SIZE,
                        ),
                        read_size: config::pick(
                            self.read_size,
                            config.read_size,
                            config::DEFAULT_READ_SIZE,
                        ),
                    },
                ),
            ),
            None => None,
        }
    }
}

/// Builder of a cpal capture backend.
pub struct CPalBuilder {
    pub rate: Option<usize>,
    pub buffer_size: Option<usize>,
    pub read_size: Option<usize>,
}

impl CPalBuilder {
    /// A builder with every field unset.
    pub fn new() -> (r: CPalBuilder)
        ensures
            r.rate.is_none(),
            r.buffer_size.is_none(),
            r.read_size.is_none(),
    {
        CPalBuilder { rate: None, buffer_size: None, read_size: None }
    }

    /// Set the recording rate.
    pub fn rate(&mut self, rate: usize) -> (r: &mut CPalBuilder)
        ensures
            *r == (CPalBuilder { rate: Some(rate), ..*old(self) }),
            *final(self) == *final(r),
    {
        self.rate = Some(rate);
        self
    }

    /// Set the buffer length.
    pub fn buffer_size(&mut self, buffer_size: usize) -> (r: &mut CPalBuilder)
        ensures
            *r == (CPalBuilder { buffer_size: Some(buffer_size), ..*old(self) }),
            *final(self) == *final(r),
    {
        self.buffer_size = Some(buffer_size);
        self
    }

    /// Set the read size.
    pub fn read_size(&mut self, read_size: usize) -> (r: &mut CPalBuilder)
        ensures
            *r == (CPalBuilder { read_size: Some(read_size), ..*old(self) }),
            *final(self) == *final(r),
    {
        self.read_size = Some(read_size);
        self
    }

    /// The settings the backend records with. An explicitly set buffer size
    /// also serves as the read size; otherwise the configured read size, or
    /// 256 samples, is read at once.
    pub fn settings(&self, config: &Config) -> (r: CaptureSettings)
        ensures
            r == (CaptureSettings {
                rate: config::chosen(self.rate, config.rate, config::DEFAULT_RATE),
                buffer_size: config::chosen(
                    self.buffer_size,
                    config.buffer,
                    config::DEFAULT_BUFFER_SIZE,
                ),
                read_size: config::chosen(
                    self.buffer_size,
                    config.read_size,
                    config::DEFAULT_CPAL_READ_SIZE,
                ),
            }),
    {
        CaptureSettings {
            rate: config::pick(self.rate, config.rate, config::DEFAULT_RATE),
            buffer_size: config::pick(self.buffer_size, config.buffer, config::DEFAULT_BUFFER_SIZE),
            read_size: config::pick(
                self.buffer_size,
                config.read_size,
                config::DEFAULT_CPAL_READ_SIZE,
            ),
        }
    }
}

/// Settings of a PulseAudio capture backend.
pub struct PulseSettings {
    /// Rate, buffer length and read size.
    pub capture: CaptureSettings,
    /// Application name announced to the server.
    pub name: String,
    /// Stream description announced to the server.
    pub description: String,
    /// Source device, or the server's default where `None`.
    pub device: Option<String>,
}

/// Builder of a PulseAudio capture backend.
pub struct PulseBuilder {
    pub rate: Option<usize>,
    pub read_size: Option<usize>,
    pub buffer_size: Option<usize>,
    pub name: Option<(String, String)>,
    pub device: Option<String>,
}

impl PulseBuilder {
    /// A builder with every field unset.
    pub fn new() -> (r: PulseBuilder)
        ensures
            r.rate.is_none(),
            r.read_size.is_none(),
            r.buffer_size.is_none(),
            r.name.is_none(),
            r.device.is_none(),
    {
        PulseBuilder { rate: None, read_size: None, buffer_size: None, name: None, device: None }
    }

    /// Set the recording rate.
    pub fn rate(&mut self, rate: usize) -> (r: &mut PulseBuilder)
        ensures
            *r == (PulseBuilder { rate: Some(rate), ..*old(self) }),
            *final(self) == *final(r),
    {
        self.rate = Some(rate);
        self
    }

    /// Set the read size.
    pub fn read_size(&mut self, size: usize) -> (r: &mut PulseBuilder)
        ensures
            *r == (PulseBuilder { read_size: Some(size), ..*old(self) }),
            *final(self) == *final(r),
    {
        self.read_size = Some(size);
        self
    }

    /// Set the buffer length.
    pub fn buffer_size(&mut self, size: usize) -> (r: &mut PulseBuilder)
        ensures
            *r == (PulseBuilder { buffer_size: Some(size), ..*old(self) }),
            *final(self) == *final(r),
    {
        self.buffer_size = Some(size);
        self
    }

    /// Set the application name and stream description.
    pub fn name(&mut self, name: &str, desc: &str) -> (r: &mut PulseBuilder)
        ensures
            r.rate == old(self).rate,
            r.read_size == old(self).read_size,
            r.buffer_size == old(self).buffer_size,
            r.name.is_some(),
            r.name.unwrap().0@ == name@,
            r.name.unwrap().1@ == desc@,
            r.device == old(self).device,
            *final(self) == *final(r),
    {
        self.name = Some((name.to_owned(), desc.to_owned()));
        self
    }

    /// Set the source device.
    pub fn device(&mut self, dev: &str) -> (r: &mut PulseBuilder)
        ensures
            r.rate == old(self).rate,
            r.read_size == old(self).read_size,
            r.buffer_size == old(self).buffer_size,
            r.name == old(self).name,
            r.device.is_some(),
            r.device.unwrap()@ == dev@,
            *final(self) == *final(r),
    {
        self.device = Some(dev.to_owned());
        self
    }

    /// The settings the backend records with. As with cpal, an explicitly
    /// set buffer size also serves as the read size; otherwise the configured
    /// read size, or 32 samples, is read at once. The name defaults to
    /// `visualizer2`.
    pub fn settings(&self, config: &Config) -> (r: PulseSettings)
        ensures
            r.capture == (CaptureSettings {
                rate: config::chosen(self.rate, config.rate, config::DEFAULT_RATE),
                buffer_size: config::chosen(
                    self.buffer_size,
                    config.buffer,
                    config::DEFAULT_BUFFER_SIZE,
                ),
                read_size: config::chosen(
                    self.buffer_size,
                    config.read_size,
                    config::DEFAULT_READ_SIZE,
                ),
            }),
            self.name.is_some() ==> r.name@ == self.name.unwrap().0@ && r.description@
                == self.name.unwrap().1@,
            self.name.is_none() ==> r.name@ == "visualizer2"@ && r.description@
                == "Pulseaudio recorder for visualizer2"@,
            config::text_of(r.device) == config::chosen_text(
                self.device,
                config.pulse_device,
            ),
    {
        let (name, description) = match &self.name {
            Some((n, d)) => (n.clone(), d.clone()),
            None => (
                "visualizer2".to_owned(),
                "Pulseaudio recorder for visualizer2".to_owned(),
            ),
        };
        PulseSettings {
            capture: CaptureSettings {
                rate: config::pick(self.rate, config.rate, config::DEFAULT_RATE),
                buffer_size: config::pick(
                    self.buffer_size,
                    config.buffer,
                    config::DEFAULT_BUFFER_SIZE,
                ),
                read_size: config::pick(
                    self.buffer_size,
                    config.read_size,
                    config::DEFAULT_READ_SIZE,
                ),
            },
            name,
            description,
            device: config::pick_text(&self.device, &config.pulse_device),
        }
    }
}

} // verus!
