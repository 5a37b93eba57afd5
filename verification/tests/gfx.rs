use gfx_core::dummy::DummyCommandBuffer;
use gfx_core::dummy::DummyDevice;
use gfx_core::dummy::DummyResources;
use pegasus::Device;
use pegasus::Init;
use pegasus::Painter;
use pegasus::Pegasus;
use pegasus::Schedule;
use pegasus::Stage;
use pegasus::Tick;
use specs::Join;
use std::cell::Cell;
use std::rc::Rc;

type Encoder = gfx::Encoder<DummyResources, DummyCommandBuffer>;

/// A gfx device that counts what it is asked to do.
struct Gpu {
    device: DummyDevice,
    submits: usize,
    cleanups: usize,
}

impl Device for Gpu {
    type Commands = Encoder;

    fn submit(&mut self, commands: &mut Encoder) {
        commands.flush(&mut self.device);
        self.submits += 1;
    }

    fn cleanup(&mut self) {
        gfx::Device::cleanup(&mut self.device);
        self.cleanups += 1;
    }
}

/// An entity that can be seen.
struct Dot(u8);

impl specs::Component for Dot {
    type Storage = specs::VecStorage<Dot>;
}

/// A painter that records nothing and counts what it was shown.
struct Idle {
    fills: Rc<Cell<usize>>,
    dots: Rc<Cell<usize>>,
}

impl Painter<Encoder> for Idle {
    type Visual = Dot;

    fn clear(&mut self, _target: &mut Encoder) {
        self.fills.set(self.fills.get() + 1);
    }

    fn draw(&mut self, visual: &Dot, _target: &mut Encoder) {
        self.dots.set(self.dots.get() + visual.0 as usize);
    }
}

/// A shell that makes two entities and says yes a given number of times.
struct TwoDots(u32);

impl Init for TwoDots {
    type Context = f32;
    type Shell = u32;

    fn start(self, planner: &mut specs::Planner<f32>) -> u32 {
        let world = planner.mut_world();
        world.register::<Dot>();
        world.create_now().with(Dot(1)).build();
        world.create_now().with(Dot(1)).build();
        self.0
    }

    fn proceed(shell: &mut u32, _world: &specs::World) -> bool {
        if *shell > 0 {
            *shell -= 1;
            true
        } else {
            false
        }
    }
}

#[test]
fn a_hundred_ticks_on_a_gfx_device() {
    let fills = Rc::new(Cell::new(0));
    let dots = Rc::new(Cell::new(0));
    let buffers: Vec<Encoder> = (0..2).map(|_| Encoder::from(DummyCommandBuffer)).collect();
    let mut planner = pegasus::scheduler();
    let mut p = Pegasus::new(
        TwoDots(99),
        Gpu { device: DummyDevice::new(), submits: 0, cleanups: 0 },
        Idle { fills: fills.clone(), dots: dots.clone() },
        buffers,
        Schedule::draw(),
        &mut planner,
        0,
    );
    let mut ticks = 0;
    loop {
        planner.dispatch(0.016);
        let world: &specs::World = planner.mut_world();
        let storage = world.read::<Dot>();
        let visuals: Vec<&Dot> = (&storage).iter().collect();
        assert_eq!(visuals.len(), 2);
        let outcome = p.tick(world, &visuals);
        ticks += 1;
        assert_eq!(p.dropped() + p.in_flight(), 2);
        if outcome == Tick::Stopped {
            break;
        }
        assert_eq!(outcome, Tick::Continue);
        assert_eq!(p.in_flight(), 2);
        p.swing().unwrap().finish();
        assert_eq!(p.in_flight(), 2);
    }
    assert_eq!(ticks, 100);
    assert_eq!(fills.get(), 100);
    assert_eq!(dots.get(), 200);
    assert_eq!(p.device.submits, 99);
    assert_eq!(p.device.cleanups, 99);
    assert!(p.swing().is_none());
    assert_eq!(p.stage(), Stage::Closed);
    assert_eq!(p.device.submits, 100);
    assert_eq!(p.device.cleanups, 100);
}
