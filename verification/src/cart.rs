//! The cart snapshot that is checked: an ordered list of lines, each with a
//! quantity and the merchandise it holds.

use vstd::prelude::*;

verus! {

/// A purchasable variant of a product.
#[derive(Clone, Debug, PartialEq, Eq)]
pub struct ProductVariant {
    /// The stable identifier by which limits are configured.
    pub id: String,
    /// The title of the product that the variant belongs to.
    pub product_title: String,
}

/// What a cart line holds. Only a product variant can carry a limit; every
/// other kind of merchandise is left alone.
#[derive(Clone, Debug, PartialEq, Eq)]
pub enum Merchandise {
    ProductVariant(ProductVariant),
    Other,
}

/// One entry of the cart.
#[derive(Clone, Debug, PartialEq, Eq)]
pub struct CartLine {
    pub quantity: i32,
    pub merchandise: Merchandise,
}

/// The cart: its lines in their natural order.
#[derive(Clone, Debug, PartialEq, Eq)]
pub struct Cart {
    pub lines: Vec<CartLine>,
}

/// Mathematical model of a [`ProductVariant`].
pub struct ProductVariantView {
    pub id: Seq<char>,
    pub product_title: Seq<char>,
}

/// Mathematical model of a [`Merchandise`].
pub enum MerchandiseView {
    ProductVariant(ProductVariantView),
    Other,
}

/// Mathematical model of a [`CartLine`].
pub struct CartLineView {
    pub quantity: i32,
    pub merchandise: MerchandiseView,
}

impl View for ProductVariant {
    type V = ProductVariantView;

    open spec fn view(&self) -> ProductVariantView {
        ProductVariantView { id: self.id@, product_title: self.product_title@ }
    }
}

impl View for Merchandise {
    type V = MerchandiseView;

    open spec fn view(&self) -> MerchandiseView {
        match self {
            Merchandise::ProductVariant(variant) => MerchandiseView::ProductVariant(variant@),
            Merchandise::Other => MerchandiseView::Other,
        }
    }
}

impl View for CartLine {
    type V = CartLineView;

    open spec fn view(&self) -> CartLineView {
        CartLineView { quantity: self.quantity, merchandise: self.merchandise@ }
    }
}

impl View for Cart {
    type V = Seq<CartLineView>;

    open spec fn view(&self) -> Seq<CartLineView> {
        self.lines@.map_values(|line: CartLine| line@)
    }
}

} // verus!
