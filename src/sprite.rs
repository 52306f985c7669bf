use vstd::prelude::*;
use crate::frame::DrawCmd;
use crate::geometry::{Point, HALF_UNIT};

verus! {

/// Which of the three loaded images a sprite shows.
#[derive(Clone, Copy, Debug, PartialEq, Eq, Structural)]
pub enum AssetId {
    Spaceship,
    Beam,
    Lutetia,
}

/// The size in whole pixels of one loaded image. The image itself stays
/// with the graphics host; sprites name it by `AssetId`.
#[derive(Clone, Copy, Debug, PartialEq, Eq, Structural)]
pub struct Drawable {
    pub width: u32,
    pub height: u32,
}

impl Drawable {
    pub open spec fn wf(&self) -> bool {
        self.width > 0 && self.height > 0
    }

    pub fn new(width: u32, height: u32) -> (r: Drawable)
        requires
            width > 0,
            height > 0,
        ensures
            r.wf(),
            r.width == width,
            r.height == height,
    {
        Drawable { width, height }
    }

    pub fn get_width(&self) -> (r: u32)
        ensures
            r == self.width,
    {
        self.width
    }

    pub fn get_height(&self) -> (r: u32)
        ensures
            r == self.height,
    {
        self.height
    }
}

/// The three images of the game, loaded once at startup.
#[derive(Clone, Copy, Debug, PartialEq, Eq, Structural)]
pub struct Assets {
    pub spaceship: Drawable,
    pub beam: Drawable,
    pub lutetia: Drawable,
}

impl Assets {
    pub open spec fn wf(&self) -> bool {
        self.spaceship.wf() && self.beam.wf() && self.lutetia.wf()
    }

    pub open spec fn spec_get(&self, id: AssetId) -> Drawable {
        match id {
            AssetId::Spaceship => self.spaceship,
            AssetId::Beam => self.beam,
            AssetId::Lutetia => self.lutetia,
        }
    }

    pub fn new(spaceship: Drawable, beam: Drawable, lutetia: Drawable) -> (r: Assets)
        requires
            spaceship.wf(),
            beam.wf(),
            lutetia.wf(),
        ensures
            r.wf(),
            r.spaceship == spaceship,
            r.beam == beam,
            r.lutetia == lutetia,
    {
        Assets { spaceship, beam, lutetia }
    }

    pub fn get(&self, id: AssetId) -> (r: Drawable)
        ensures
            r == self.spec_get(id),
    {
        match id {
            AssetId::Spaceship => self.spaceship,
            AssetId::Beam => self.beam,
            AssetId::Lutetia => self.lutetia,
        }
    }
}

/// A positioned reference to one asset, drawn centred on its position.
#[derive(Clone, Copy, Debug, PartialEq, Eq, Structural)]
pub struct Sprite {
    pub position: Point,
    pub asset: AssetId,
}

/// The command that paints `s` centred on its position: translate to the
/// position, then back by half the image's size.
pub open spec fn image_cmd(s: Sprite, assets: Assets) -> DrawCmd {
    let d = assets.spec_get(s.asset);
    DrawCmd::Image {
        asset: s.asset,
        x: s.position.x,
        y: s.position.y,
        dx: -(d.width * HALF_UNIT) as i64,
        dy: -(d.height * HALF_UNIT) as i64,
    }
}

impl Sprite {
    pub fn draw(&self, assets: &Assets) -> (r: DrawCmd)
        ensures
            r == image_cmd(*self, *assets),
    {
        let d = assets.get(self.asset);
        DrawCmd::Image {
            asset: self.asset,
            x: self.position.x,
            y: self.position.y,
            dx: -((d.width as i64) * HALF_UNIT),
            dy: -((d.height as i64) * HALF_UNIT),
        }
    }
}

} // verus!
