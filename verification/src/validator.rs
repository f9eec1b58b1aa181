//! The limit check itself: from a configuration and a cart to the operations
//! that the checkout applies.

use crate::cart::{Cart, CartLine, CartLineView, Merchandise, MerchandiseView};
use crate::configuration::{limit_of, Configuration};
use crate::decimal::{append_decimal, decimal_text};
use crate::outcome::{
    errors_view, Operation, OperationView, ValidationError, ValidationErrorView, ValidationResult,
};
use vstd::prelude::*;

verus! {

/// The message shown for a line that holds more than `limit` of the product
/// titled `product_title`. The title is taken over as it is.
pub open spec fn limit_message(limit: int, product_title: Seq<char>) -> Seq<char> {
    "Orders are limited to a maximum of "@ + decimal_text(limit) + " of "@ + product_title
}

/// The error raised for a line that holds more than `limit` of the product
/// titled `product_title`: its message, aimed at the cart as a whole.
pub open spec fn limit_error(limit: int, product_title: Seq<char>) -> ValidationErrorView {
    ValidationErrorView { message: limit_message(limit, product_title), target: "cart"@ }
}

/// Whether `line` holds a product variant in a quantity strictly greater than
/// the limit that applies to it under `limits`.
pub open spec fn exceeds(limits: Map<Seq<char>, i32>, line: CartLineView) -> bool {
    match line.merchandise {
        MerchandiseView::ProductVariant(variant) => line.quantity > limit_of(limits, variant.id),
        MerchandiseView::Other => false,
    }
}

/// The error owed for a line that exceeds its limit: it names the limit and
/// the title of the product.
pub open spec fn exceeding_error(
    limits: Map<Seq<char>, i32>,
    line: CartLineView,
) -> ValidationErrorView
    recommends
        exceeds(limits, line),
{
    let variant = line.merchandise->ProductVariant_0;
    limit_error(limit_of(limits, variant.id) as int, variant.product_title)
}

/// The error that `line` raises under `limits`, if it raises one.
pub open spec fn line_error(limits: Map<Seq<char>, i32>, line: CartLineView) -> Option<
    ValidationErrorView,
> {
    if exceeds(limits, line) {
        Some(exceeding_error(limits, line))
    } else {
        None
    }
}

/// The errors that the lines of a cart raise under `limits`, in cart order.
pub open spec fn violations(limits: Map<Seq<char>, i32>, lines: Seq<CartLineView>) -> Seq<
    ValidationErrorView,
> {
    lines.filter_map(|line: CartLineView| line_error(limits, line))
}

/// The operations owed for a cart. Without a configuration there is nothing
/// to do. With one, there is exactly one operation, which adds the errors of
/// the cart's lines, also when there are none.
pub open spec fn evaluate(limits: Option<Map<Seq<char>, i32>>, lines: Seq<CartLineView>) -> Seq<
    OperationView,
> {
    match limits {
        None => Seq::empty(),
        Some(limits) => seq![OperationView::ValidationAdd { errors: violations(limits, lines) }],
    }
}

/// The model of a configuration that may be absent.
pub open spec fn limits_view(configuration: Option<&Configuration>) -> Option<
    Map<Seq<char>, i32>,
> {
    match configuration {
        Some(configuration) => Some(configuration@),
        None => None,
    }
}

/// The model of an error that may be absent.
pub open spec fn error_option_view(error: Option<ValidationError>) -> Option<ValidationErrorView> {
    match error {
        Some(error) => Some(error@),
        None => None,
    }
}

/// Writes the message for a line that holds more than `limit` of the product
/// titled `product_title`.
pub fn format_limit_message(limit: i32, product_title: &str) -> (message: String)
    ensures
        message@ == limit_message(limit as int, product_title@),
{
    let mut message = String::from_str("Orders are limited to a maximum of ");
    append_decimal(&mut message, limit);
    message.append(" of ");
    message.append(product_title);
    message
}

/// Checks one cart line against the configuration.
pub fn check_line(configuration: &Configuration, line: &CartLine) -> (error: Option<
    ValidationError,
>)
    ensures
        error_option_view(error) == line_error(configuration@, line@),
        error is Some <==> exceeds(configuration@, line@),
{
    match &line.merchandise {
        Merchandise::ProductVariant(variant) => {
            let limit = configuration.limit_for(variant.id.as_str());
            if line.quantity > limit {
                Some(
                    ValidationError {
                        message: format_limit_message(limit, variant.product_title.as_str()),
                        target: String::from_str("cart"),
                    },
                )
            } else {
                None
            }
        },
        Merchandise::Other => None,
    }
}

/// Checks every line of the cart against the configuration and collects the
/// errors in cart order.
pub fn collect_violations(configuration: &Configuration, cart: &Cart) -> (errors: Vec<
    ValidationError,
>)
    ensures
        errors_view(errors@) == violations(configuration@, cart@),
{
    let mut errors: Vec<ValidationError> = Vec::new();
    let mut i: usize = 0;
    while i < cart.lines.len()
        invariant
            i <= cart.lines.len(),
            cart@.len() == cart.lines.len(),
            errors_view(errors@) == violations(configuration@, cart@.take(i as int)),
        decreases cart.lines.len() - i,
    {
        let found = check_line(configuration, &cart.lines[i]);
        proof {
            cart@.lemma_filter_map_take_succ(
                |line: CartLineView| line_error(configuration@, line),
                i as int,
            );
        }
        if let Some(error) = found {
            errors.push(error);
        }
        i += 1;
    }
    assert(cart@.take(i as int) =~= cart@);
    errors
}

/// Validates a cart against the merchant's limits.
///
/// Without a configuration the result holds no operation at all, whatever the
/// cart. With one, it holds exactly one operation, which adds one error for
/// each line that exceeds its limit, in cart order; that operation is there
/// even when no line does.
pub fn run(configuration: Option<&Configuration>, cart: &Cart) -> (result: ValidationResult)
    ensures
        result@ == evaluate(limits_view(configuration), cart@),
        configuration is None ==> result.operations@.len() == 0,
        configuration is Some ==> result.operations@.len() == 1,
{
    let mut operations: Vec<Operation> = Vec::new();
    if let Some(configuration) = configuration {
        let errors = collect_violations(configuration, cart);
        operations.push(Operation::ValidationAdd { errors });
    }
    ValidationResult { operations }
}

/// Without a configuration nothing is owed, whatever the cart holds.
pub proof fn lemma_absent_configuration_owes_nothing(lines: Seq<CartLineView>)
    ensures
        evaluate(None, lines) == Seq::<OperationView>::empty(),
{
}

/// With a configuration exactly one operation is owed, and it adds the errors
/// of the cart's lines, also when there are none.
pub proof fn lemma_present_configuration_owes_one_operation(
    limits: Map<Seq<char>, i32>,
    lines: Seq<CartLineView>,
)
    ensures
        evaluate(Some(limits), lines).len() == 1,
        evaluate(Some(limits), lines)[0] == (OperationView::ValidationAdd {
            errors: violations(limits, lines),
        }),
{
}

/// A line raises an error exactly when it holds a product variant in a
/// quantity strictly greater than the limit that applies to it, and the error
/// then names that limit and the product's title and is aimed at the cart.
pub proof fn lemma_line_error_iff_over_limit(limits: Map<Seq<char>, i32>, line: CartLineView)
    ensures
        line_error(limits, line) is Some <==> line.merchandise is ProductVariant && line.quantity
            > limit_of(limits, line.merchandise->ProductVariant_0.id),
        line_error(limits, line) is Some ==> line_error(limits, line)->Some_0.target == "cart"@
            && line_error(limits, line)->Some_0.message == limit_message(
            limit_of(limits, line.merchandise->ProductVariant_0.id) as int,
            line.merchandise->ProductVariant_0.product_title,
        ),
{
}

/// A product variant for which no limit is configured raises no error,
/// whatever its quantity.
pub proof fn lemma_unconfigured_variant_raises_nothing(
    limits: Map<Seq<char>, i32>,
    line: CartLineView,
)
    requires
        line.merchandise is ProductVariant,
        !limits.contains_key(line.merchandise->ProductVariant_0.id),
    ensures
        !exceeds(limits, line),
        line_error(limits, line) is None,
{
}

/// A quantity equal to the limit raises no error: only a strictly greater one
/// does.
pub proof fn lemma_quantity_at_limit_raises_nothing(
    limits: Map<Seq<char>, i32>,
    line: CartLineView,
)
    requires
        line.merchandise is ProductVariant,
        line.quantity == limit_of(limits, line.merchandise->ProductVariant_0.id),
    ensures
        !exceeds(limits, line),
        line_error(limits, line) is None,
{
}

/// Merchandise that is no product variant raises no error.
pub proof fn lemma_other_merchandise_raises_nothing(
    limits: Map<Seq<char>, i32>,
    line: CartLineView,
)
    requires
        line.merchandise is Other,
    ensures
        !exceeds(limits, line),
        line_error(limits, line) is None,
{
}

/// The errors of a cart of one line: that line's error, or none.
pub proof fn lemma_violations_of_one_line(limits: Map<Seq<char>, i32>, line: CartLineView)
    ensures
        violations(limits, seq![line]) == (match line_error(limits, line) {
            Some(error) => seq![error],
            None => Seq::empty(),
        }),
{
    Seq::lemma_filter_map_singleton(line, |line: CartLineView| line_error(limits, line));
}

/// The errors keep the order of the cart: those of the lines `first` followed
/// by the lines `rest` are those of `first` followed by those of `rest`.
pub proof fn lemma_violations_keep_cart_order(
    limits: Map<Seq<char>, i32>,
    first: Seq<CartLineView>,
    rest: Seq<CartLineView>,
)
    ensures
        violations(limits, first + rest) == violations(limits, first) + violations(limits, rest),
    decreases rest.len(),
{
    if rest.len() > 0 {
        lemma_violations_keep_cart_order(limits, first, rest.drop_last());
        assert((first + rest).drop_last() =~= first + rest.drop_last());
    }
}

/// The errors are those of the lines that exceed their limit, one for each
/// and in the same order; so there are as many errors as such lines.
pub proof fn lemma_violations_follow_the_exceeding_lines(
    limits: Map<Seq<char>, i32>,
    lines: Seq<CartLineView>,
)
    ensures
        violations(limits, lines) == lines.filter(
            |line: CartLineView| exceeds(limits, line),
        ).map_values(|line: CartLineView| exceeding_error(limits, line)),
        violations(limits, lines).len() == lines.filter(
            |line: CartLineView| exceeds(limits, line),
        ).len(),
    decreases lines.len(),
{
    reveal(Seq::filter);
    if lines.len() > 0 {
        lemma_violations_follow_the_exceeding_lines(limits, lines.drop_last());
    }
}

/// Every error is aimed at the cart as a whole.
pub proof fn lemma_every_error_targets_the_cart(
    limits: Map<Seq<char>, i32>,
    lines: Seq<CartLineView>,
    i: int,
)
    requires
        0 <= i < violations(limits, lines).len(),
    ensures
        violations(limits, lines)[i].target == "cart"@,
    decreases lines.len(),
{
    if lines.len() > 0 {
        let earlier = violations(limits, lines.drop_last());
        if i < earlier.len() {
            lemma_every_error_targets_the_cart(limits, lines.drop_last(), i);
        }
    }
}

/// A line that raises no error leaves the errors of the cart as they are
/// without it.
pub proof fn lemma_silent_line_changes_nothing(
    limits: Map<Seq<char>, i32>,
    before: Seq<CartLineView>,
    line: CartLineView,
    after: Seq<CartLineView>,
)
    requires
        line_error(limits, line) is None,
    ensures
        violations(limits, before + seq![line] + after) == violations(limits, before + after),
{
    lemma_violations_keep_cart_order(limits, before + seq![line], after);
    lemma_violations_keep_cart_order(limits, before, seq![line]);
    lemma_violations_of_one_line(limits, line);
    lemma_violations_keep_cart_order(limits, before, after);
}

/// Running twice on the same configuration and the same cart gives the same
/// result: nothing but the two inputs decides it.
pub proof fn lemma_run_is_repeatable(
    first_configuration: Option<&Configuration>,
    first_cart: &Cart,
    first_result: ValidationResult,
    second_configuration: Option<&Configuration>,
    second_cart: &Cart,
    second_result: ValidationResult,
)
    requires
        limits_view(first_configuration) == limits_view(second_configuration),
        first_cart@ == second_cart@,
        call_ensures(run, (first_configuration, first_cart), first_result),
        call_ensures(run, (second_configuration, second_cart), second_result),
    ensures
        first_result@ == second_result@,
{
}

} // verus!
