//! The pixels of a decoded image and the bookkeeping of their life on the
//! graphics card.

use vstd::prelude::*;

verus! {

/// What a texture holder stands for.
pub struct TextureView {
    pub image_width: nat,
    pub image_height: nat,
    /// The pixels, four bytes each (red, green, blue, alpha), row by row.
    pub texture_data: Seq<u8>,
    /// How many users have attached the texture and not yet let go of it.
    pub usage_counter: nat,
    /// The name the graphics card gave to the texture.
    pub id: u32,
    /// Whether the pixels are on the graphics card.
    pub attached: bool,
}

/// The holder of no image at all: no pixels, no size, never attached.
pub open spec fn empty_texture() -> TextureView {
    TextureView {
        image_width: 0,
        image_height: 0,
        texture_data: Seq::empty(),
        usage_counter: 0,
        id: 0,
        attached: false,
    }
}

/// The holder of a fresh image that nobody has attached yet.
pub open spec fn fresh_texture(width: nat, height: nat, data: Seq<u8>) -> TextureView {
    TextureView {
        image_width: width,
        image_height: height,
        texture_data: data,
        usage_counter: 0,
        id: 0,
        attached: false,
    }
}

/// The holder after one more user attached it. `uploaded` is the name of the
/// texture that was created for it; it counts only while the holder is not
/// attached yet.
pub open spec fn attached_texture(before: TextureView, uploaded: u32) -> TextureView {
    TextureView {
        usage_counter: before.usage_counter + 1,
        id: if before.attached {
            before.id
        } else {
            uploaded
        },
        attached: true,
        ..before
    }
}

/// The holder after one user let go of it. While users are counted the count
/// goes down; once it is zero the texture leaves the graphics card.
pub open spec fn cleared_texture(before: TextureView) -> TextureView {
    if before.usage_counter == 0 {
        TextureView { attached: false, ..before }
    } else {
        TextureView { usage_counter: (before.usage_counter - 1) as nat, ..before }
    }
}

/// Pixels of an image together with the state of their copy on the graphics
/// card. The pixel buffer always holds four bytes for each pixel.
pub struct TextureHolderInterfaceImpl {
    image_width: usize,
    image_height: usize,
    texture_data: Vec<u8>,
    usage_counter: usize,
    id: u32,
    attached: bool,
}

impl View for TextureHolderInterfaceImpl {
    type V = TextureView;

    closed spec fn view(&self) -> TextureView {
        TextureView {
            image_width: self.image_width as nat,
            image_height: self.image_height as nat,
            texture_data: self.texture_data@,
            usage_counter: self.usage_counter as nat,
            id: self.id,
            attached: self.attached,
        }
    }
}

impl TextureHolderInterfaceImpl {
    #[verifier::type_invariant]
    spec fn well_sized(&self) -> bool {
        self.texture_data@.len() == self.image_width * self.image_height * 4
    }

    /// A holder for an image of `width` by `height` pixels, or nothing when
    /// `data` does not hold exactly four bytes for each of them.
    pub fn new(width: usize, height: usize, data: Vec<u8>) -> (holder: Option<Self>)
        ensures
            data@.len() == width * height * 4 ==> (holder matches Some(h) && h@ == fresh_texture(
                width as nat,
                height as nat,
                data@,
            )),
            data@.len() != width * height * 4 ==> holder is None,
    {
        assert(width * height <= 0xffff_ffff_ffff_ffff * 0xffff_ffff_ffff_ffff) by (nonlinear_arith)
            requires
                0 <= width <= 0xffff_ffff_ffff_ffff,
                0 <= height <= 0xffff_ffff_ffff_ffff,
        ;
        let pixels: u128 = (width as u128) * (height as u128);
        let bytes: u128 = data.len() as u128;
        if bytes % 4 == 0 && bytes / 4 == pixels {
            Some(
                TextureHolderInterfaceImpl {
                    image_width: width,
                    image_height: height,
                    texture_data: data,
                    usage_counter: 0,
                    id: 0,
                    attached: false,
                },
            )
        } else {
            None
        }
    }

    pub fn getImageWidth(&self) -> (width: i32)
        ensures
            width == self@.image_width as i32,
    {
        #[verifier::truncate]
        (self.image_width as i32)
    }

    pub fn getImageHeight(&self) -> (height: i32)
        ensures
            height == self@.image_height as i32,
    {
        #[verifier::truncate]
        (self.image_height as i32)
    }

    pub fn getTextureWidth(&self) -> (width: i32)
        ensures
            width == self@.image_width as i32,
    {
        #[verifier::truncate]
        (self.image_width as i32)
    }

    pub fn getTextureHeight(&self) -> (height: i32)
        ensures
            height == self@.image_height as i32,
    {
        #[verifier::truncate]
        (self.image_height as i32)
    }

    /// The pixels, four bytes each, row by row.
    pub fn texture_data(&self) -> (data: &Vec<u8>)
        ensures
            data@ == self@.texture_data,
            data@.len() == self@.image_width * self@.image_height * 4,
    {
        proof {
            use_type_invariant(self);
        }
        &self.texture_data
    }

    /// Whether the pixels are on the graphics card. While they are not, the
    /// caller uploads them before it calls `attachToGraphics`.
    pub fn is_attached(&self) -> (attached: bool)
        ensures
            attached == self@.attached,
    {
        self.attached
    }

    /// The name under which the graphics card knows the texture.
    pub fn id(&self) -> (id: u32)
        ensures
            id == self@.id,
    {
        self.id
    }

    /// How many users hold the texture.
    pub fn usage_counter(&self) -> (count: usize)
        ensures
            count == self@.usage_counter,
    {
        self.usage_counter
    }

    /// Counts one more user of the texture and returns the name under which
    /// the graphics card knows it. `uploaded` is the name of the texture that
    /// the caller created from the pixels; it is taken over when the holder
    /// was not attached, and ignored otherwise.
    pub fn attachToGraphics(&mut self, uploaded: u32) -> (name: i32)
        requires
            old(self)@.usage_counter < usize::MAX,
        ensures
            final(self)@ == attached_texture(old(self)@, uploaded),
            name == final(self)@.id as i32,
    {
        proof {
            use_type_invariant(&*self);
        }
        if !self.attached {
            self.id = uploaded;
            self.attached = true;
        }
        self.usage_counter = self.usage_counter + 1;
        #[verifier::truncate]
        (self.id as i32)
    }

    /// Lets go of the texture for one user. Returns whether the caller has to
    /// delete the texture from the graphics card, which is the case when no
    /// user was counted any more.
    pub fn clearFromGraphics(&mut self) -> (delete: bool)
        ensures
            final(self)@ == cleared_texture(old(self)@),
            delete == (old(self)@.usage_counter == 0),
    {
        proof {
            use_type_invariant(&*self);
        }
        if self.usage_counter == 0 {
            self.attached = false;
            true
        } else {
            self.usage_counter = self.usage_counter - 1;
            false
        }
    }
}

impl Default for TextureHolderInterfaceImpl {
    /// The holder of no image at all.
    fn default() -> (holder: Self)
        ensures
            holder@ == empty_texture(),
    {
        TextureHolderInterfaceImpl {
            image_width: 0,
            image_height: 0,
            texture_data: Vec::new(),
            usage_counter: 0,
            id: 0,
            attached: false,
        }
    }
}

} // verus!
