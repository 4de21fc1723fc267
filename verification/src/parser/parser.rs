//! The parser, which builds the program that `grammar` defines.

use crate::diagnostics::maneger::{fatal, Diagnostic, DiagnosticView};
use crate::lexer::lexer::{delivers, Lexer};
use crate::lexer::scan::{lemma_lex_advances, lex};
use crate::lexer::token::{Token, TokenType, TokenView};
use crate::parser::ast::{
    AggregateClause, AggregateFn, BooleanLiteral, ColumnExpression, ConditionExpression, Expression,
    FromClause, FunctionCallExpression, GroupByClause, JoinClause, LimitClause, Literal,
    NumberLiteral, Operator, OrderClause, OrderColumn, OrderDirection, PipeStatement, Program,
    SelectExpression, SelectStatement, Statement, StringLiteral, WhereClause,
};
use crate::parser::grammar::{
    accept, aggregate_clause, aggregate_function, alias, arguments, at_kind, boolean_literal,
    column, column_expression, column_or_function_call, condition, covered, expect, expression,
    from_clause, group_by_clause, group_columns, join_clause, lemma_skip_comments, limit_clause,
    missing_text, number_literal, operator, order_clause, order_column, order_columns, pipes,
    program_from, qualified, select_expression, select_items, select_statement, skip_comments,
    stage, statement, statements, string_literal, subquery, unexpected, where_clause, Parsed,
};
use crate::utils::range::{range_from, Range};
use crate::utils::{same_text, views};
use crate::utils::source::Source;
use vstd::prelude::*;
use vstd::string::*;

verus! {

/// Whether a call returned what the grammar gives, and stopped where the
/// grammar stops.
pub open spec fn gives<T: View>(
    parsed: Parsed<T::V>,
    result: Result<T, Diagnostic>,
    position: int,
) -> bool {
    match parsed {
        Ok((value, next)) => result matches Ok(read) && read@ == value && position == next,
        Err(diagnostic) => result matches Err(raised) && raised@ == diagnostic,
    }
}

/// As `gives`, for a token that may be absent.
pub open spec fn gives_optional(
    parsed: Parsed<Option<TokenView>>,
    result: Result<Option<Token>, Diagnostic>,
    position: int,
) -> bool {
    match parsed {
        Ok((Some(token), next)) => result matches Ok(Some(read)) && read@ == token && position
            == next,
        Ok((None, next)) => result matches Ok(None) && position == next,
        Err(diagnostic) => result matches Err(raised) && raised@ == diagnostic,
    }
}

/// As `gives`, for an answer that takes no token.
pub open spec fn answers(
    expected: Result<bool, DiagnosticView>,
    result: Result<bool, Diagnostic>,
) -> bool {
    match expected {
        Ok(answer) => result matches Ok(given) && given == answer,
        Err(diagnostic) => result matches Err(raised) && raised@ == diagnostic,
    }
}

/// Builds the program that a lexer's tokens spell, by recursive descent with
/// one token of lookahead. The first failure of lexing or parsing ends the
/// parse.
pub struct Parser<'a> {
    lexer: &'a mut Lexer<'a>,
}

impl<'a> Parser<'a> {
    /// The source that is parsed.
    pub closed spec fn source(&self) -> &'a Source<'a> {
        self.lexer.source()
    }

    /// The characters of the source.
    pub closed spec fn text(&self) -> Seq<char> {
        self.lexer.text()
    }

    /// The index of the first character that no token taken so far covers.
    pub closed spec fn position(&self) -> int {
        self.lexer.position()
    }

    /// Whether `self` reads the same input as `other`.
    pub open spec fn reads_with(&self, other: &Self) -> bool {
        self.source() == other.source() && self.text() == other.text()
    }

    /// Whether the position lies inside the text.
    pub open spec fn inside(&self) -> bool {
        0 <= self.position() <= self.text().len()
    }

    /// What every function that parses a construct guarantees: the input
    /// stays the same, the result is what the grammar gives for the text at
    /// the position before the call, and a construct that was read took at
    /// least one token.
    pub open spec fn parsed<T: View>(
        &self,
        before: &Self,
        grammar: Parsed<T::V>,
        result: Result<T, Diagnostic>,
    ) -> bool {
        &&& self.reads_with(before)
        &&& before.inside()
        &&& self.inside()
        &&& gives(grammar, result, self.position())
        &&& before.position() <= self.position()
        &&& result is Ok ==> before.position() < self.position()
    }

    /// A parser that reads from `lexer`, from where the lexer stands.
    pub fn new(lexer: &'a mut Lexer<'a>) -> (parser: Self)
        ensures
            parser.source() == old(lexer).source(),
            parser.text() == old(lexer).text(),
            parser.position() == old(lexer).position(),
    {
        Self { lexer }
    }

    /// The source that is parsed.
    pub fn get_source(&self) -> (source: &Source<'a>)
        ensures
            source == self.source(),
    {
        self.lexer.get_source()
    }

    /// The range of a construct that began with the token at `first` and
    /// whose last token was just taken.
    fn covered(&self, first: &Range) -> (range: Range)
        ensures
            range == covered(self.text(), *first, self.position()),
    {
        Range::new(first.start, self.lexer.offset())
    }

    fn consume_token(&mut self) -> (result: Result<Token, Diagnostic>)
        ensures
            final(self).reads_with(old(self)),
            old(self).inside(),
            final(self).inside(),
            old(self).position() <= final(self).position(),
            gives(lex(old(self).text(), old(self).position()), result, final(self).position()),
            result matches Ok(token) && token.kind != TokenType::EOF ==> old(self).position()
                < final(self).position(),
            result is Err ==> final(self).position() == old(self).position(),
    {
        proof {
            lemma_lex_advances(self.text(), self.position());
        }
        self.lexer.next_token()
    }

    fn peek(&mut self) -> (result: Result<Token, Diagnostic>)
        ensures
            final(self).reads_with(old(self)),
            final(self).position() == old(self).position(),
            final(self).inside(),
            delivers(lex(old(self).text(), old(self).position()), result),
    {
        self.lexer.peek_token()
    }

    fn consume_expect_token(&mut self, kind: TokenType) -> (result: Result<Token, Diagnostic>)
        ensures
            final(self).reads_with(old(self)),
            old(self).inside(),
            final(self).inside(),
            gives(
                expect(old(self).text(), old(self).position(), kind),
                result,
                final(self).position(),
            ),
            old(self).position() <= final(self).position(),
            result is Ok && kind != TokenType::EOF ==> old(self).position()
                < final(self).position(),
    {
        let token = self.consume_token()?;
        if token.kind != kind {
            let mut message = String::from_str("expected `");
            message.append(kind.to_string().as_str());
            message.append("` but found `");
            message.append(token.kind.to_string().as_str());
            message.append("`");
            return Err(Self::report_error(message, &token));
        }
        Ok(token)
    }

    fn match_token(&mut self, kind: &TokenType) -> (result: Result<bool, Diagnostic>)
        ensures
            final(self).reads_with(old(self)),
            final(self).position() == old(self).position(),
            final(self).inside(),
            answers(at_kind(old(self).text(), old(self).position(), *kind), result),
    {
        let token = self.peek()?;
        Ok(token.kind == *kind)
    }

    #[verifier::loop_isolation(false)]
    fn match_any_token(&mut self, kinds: &[TokenType]) -> (result: Result<bool, Diagnostic>)
        ensures
            final(self).reads_with(old(self)),
            final(self).position() == old(self).position(),
            final(self).inside(),
            match lex(old(self).text(), old(self).position()) {
                Ok((token, _)) => result matches Ok(found) && found == kinds@.contains(token.kind),
                Err(diagnostic) => result matches Err(raised) && raised@ == diagnostic,
            },
    {
        let token = self.peek()?;
        let mut i: usize = 0;
        while i < kinds.len()
            invariant
                i <= kinds.len(),
                forall|j: int| 0 <= j < i ==> kinds@[j] != token.kind,
            decreases kinds.len() - i,
        {
            if kinds[i] == token.kind {
                return Ok(true);
            }
            i = i + 1;
        }
        Ok(false)
    }

    fn match_token_and_consume(&mut self, kind: TokenType) -> (result: Result<
        Option<Token>,
        Diagnostic,
    >)
        ensures
            final(self).reads_with(old(self)),
            old(self).inside(),
            final(self).inside(),
            old(self).position() <= final(self).position(),
            gives_optional(
                accept(old(self).text(), old(self).position(), kind),
                result,
                final(self).position(),
            ),
    {
        if self.match_token(&kind)? {
            let token = self.consume_token()?;
            Ok(Some(token))
        } else {
            Ok(None)
        }
    }

    fn is_end(&mut self) -> (result: Result<bool, Diagnostic>)
        ensures
            final(self).reads_with(old(self)),
            final(self).position() == old(self).position(),
            final(self).inside(),
            answers(at_kind(old(self).text(), old(self).position(), TokenType::EOF), result),
    {
        self.match_token(&TokenType::EOF)
    }

    fn skip_comments(&mut self) -> (result: Result<(), Diagnostic>)
        requires
            old(self).inside(),
        ensures
            final(self).reads_with(old(self)),
            final(self).inside(),
            old(self).position() <= final(self).position(),
            match skip_comments(old(self).text(), old(self).position()) {
                Ok(start) => result is Ok && final(self).position() == start,
                Err(diagnostic) => result matches Err(raised) && raised@ == diagnostic,
            },
    {
        loop
            invariant
                self.reads_with(old(self)),
                old(self).inside(),
                old(self).position() <= self.position(),
                skip_comments(self.text(), self.position()) == skip_comments(
                    old(self).text(),
                    old(self).position(),
                ),
            ensures
                self.reads_with(old(self)),
                self.inside(),
                old(self).inside(),
                old(self).position() <= self.position(),
                skip_comments(old(self).text(), old(self).position()) == Ok::<
                    int,
                    DiagnosticView,
                >(self.position()),
            decreases self.text().len() - self.position(),
        {
            let token = self.peek()?;
            if !token.is_comment() {
                break ;
            }
            let _ = self.consume_token()?;
        }
        Ok(())
    }

    /// The items of a select list, up to `FROM` or the end of input.
    fn parse_select_items(&mut self) -> (result: Result<Vec<SelectExpression>, Diagnostic>)
        requires
            old(self).inside(),
        ensures
            final(self).reads_with(old(self)),
            final(self).inside(),
            old(self).position() <= final(self).position(),
            match select_items(old(self).text(), old(self).position(), Seq::empty()) {
                Ok((items, next)) => result matches Ok(read) && views(read@) == items
                    && final(self).position() == next,
                Err(diagnostic) => result matches Err(raised) && raised@ == diagnostic,
            },
        decreases old(self).text().len() - old(self).position(), 6nat,
    {
        let mut items: Vec<SelectExpression> = Vec::new();
        let ghost start = self.position();
        let mut done = false;
        proof {
            assert(views(items@) =~= Seq::empty());
        }
        while !done
            invariant
                self.reads_with(old(self)),
                self.inside(),
                start == old(self).position(),
                start <= self.position(),
                !done ==> select_items(self.text(), start, Seq::empty()) == select_items(
                    self.text(),
                    self.position(),
                    views(items@),
                ),
                done ==> select_items(self.text(), start, Seq::empty()) == Ok::<_, DiagnosticView>(
                    (views(items@), self.position()),
                ),
            decreases (if done { 0int } else { 1int }), self.text().len() - self.position(),
        {
            if self.match_token(&TokenType::From)? || self.is_end()? {
                done = true;
            } else {
                let item = self.parse_select_expression()?;
                proof {
                    assert(views(items@.push(item)) =~= views(items@).push(item@));
                }
                items.push(item);
                let _ = self.match_token_and_consume(TokenType::Comma)?;
            }
        }
        Ok(items)
    }

    /// The arguments of a call, up to `)` or the end of input.
    fn parse_arguments(&mut self) -> (result: Result<Vec<Expression>, Diagnostic>)
        requires
            old(self).inside(),
        ensures
            final(self).reads_with(old(self)),
            final(self).inside(),
            old(self).position() <= final(self).position(),
            match arguments(old(self).text(), old(self).position(), Seq::empty()) {
                Ok((items, next)) => result matches Ok(read) && views(read@) == items
                    && final(self).position() == next,
                Err(diagnostic) => result matches Err(raised) && raised@ == diagnostic,
            },
        decreases old(self).text().len() - old(self).position(), 6nat,
    {
        let mut items: Vec<Expression> = Vec::new();
        let ghost start = self.position();
        let mut done = false;
        proof {
            assert(views(items@) =~= Seq::empty());
        }
        while !done
            invariant
                self.reads_with(old(self)),
                self.inside(),
                start == old(self).position(),
                start <= self.position(),
                !done ==> arguments(self.text(), start, Seq::empty()) == arguments(
                    self.text(),
                    self.position(),
                    views(items@),
                ),
                done ==> arguments(self.text(), start, Seq::empty()) == Ok::<_, DiagnosticView>(
                    (views(items@), self.position()),
                ),
            decreases (if done { 0int } else { 1int }), self.text().len() - self.position(),
        {
            if self.match_token(&TokenType::RightParen)? || self.is_end()? {
                done = true;
            } else {
                let item = self.parse_expression()?;
                proof {
                    assert(views(items@.push(item)) =~= views(items@).push(item@));
                }
                items.push(item);
                let _ = self.match_token_and_consume(TokenType::Comma)?;
            }
        }
        Ok(items)
    }

    /// Parses the rest of the text into a program. The first failure of
    /// lexing or parsing, in the order of the text, ends the parse and is
    /// returned; no part of a program is returned with it.
    pub fn parse(&mut self) -> (result: Result<Program, Diagnostic>)
        ensures
            final(self).reads_with(old(self)),
            match program_from(old(self).text(), old(self).position()) {
                Ok(program) => result matches Ok(read) && read@ == program,
                Err(diagnostic) => result matches Err(raised) && raised@ == diagnostic,
            },
    {
        self.parse_program()
    }

    fn parse_program(&mut self) -> (result: Result<Program, Diagnostic>)
        ensures
            final(self).reads_with(old(self)),
            match program_from(old(self).text(), old(self).position()) {
                Ok(program) => result matches Ok(read) && read@ == program,
                Err(diagnostic) => result matches Err(raised) && raised@ == diagnostic,
            },
    {
        let mut read: Vec<Statement> = Vec::new();
        let ghost start = self.position();
        let mut done = false;
        proof {
            assert(views(read@) =~= Seq::empty());
        }
        while !done
            invariant
                self.reads_with(old(self)),
                start == old(self).position(),
                !done ==> statements(self.text(), start, Seq::empty()) == statements(
                    self.text(),
                    self.position(),
                    views(read@),
                ),
                done ==> statements(self.text(), start, Seq::empty()) == Ok::<_, DiagnosticView>(
                    views(read@),
                ),
            decreases (if done { 0int } else { 1int }), self.text().len() - self.position(),
        {
            if self.is_end()? {
                done = true;
            } else {
                let statement = self.parse_statement()?;
                proof {
                    assert(views(read@.push(statement)) =~= views(read@).push(statement@));
                }
                read.push(statement);
                let _ = self.match_token_and_consume(TokenType::Semicolon)?;
            }
        }
        let program = Program::new(read);
        proof {
            assert(program@.statements =~= views(read@));
        }
        Ok(program)
    }

    fn parse_statement(&mut self) -> (result: Result<Statement, Diagnostic>)
        requires
            old(self).inside(),
        ensures
            final(self).parsed(
                old(self),
                statement(old(self).text(), old(self).position()),
                result,
            ),
        decreases old(self).text().len() - old(self).position(), 9nat,
    {
        proof {
            lemma_skip_comments(self.text(), self.position());
        }
        self.skip_comments()?;
        let statement = self.parse_primary_statement()?;
        self.parse_pipes(statement)
    }

    /// The stages that are piped onto `left`.
    fn parse_pipes(&mut self, left: Statement) -> (result: Result<Statement, Diagnostic>)
        requires
            old(self).inside(),
        ensures
            final(self).reads_with(old(self)),
            final(self).inside(),
            old(self).position() <= final(self).position(),
            gives(
                pipes(old(self).text(), old(self).position(), left@),
                result,
                final(self).position(),
            ),
        decreases old(self).text().len() - old(self).position(), 10nat,
    {
        let mut statement = left;
        let ghost start = self.position();
        let mut done = false;
        while !done
            invariant
                self.reads_with(old(self)),
                self.inside(),
                start == old(self).position(),
                start <= self.position(),
                !done ==> pipes(self.text(), start, left@) == pipes(
                    self.text(),
                    self.position(),
                    statement@,
                ),
                done ==> pipes(self.text(), start, left@) == Ok::<_, DiagnosticView>(
                    (statement@, self.position()),
                ),
            decreases (if done { 0int } else { 1int }), self.text().len() - self.position(),
        {
            if self.match_token_and_consume(TokenType::Pipe)?.is_some() {
                let next_statement = self.parse_primary_statement()?;
                statement = Statement::Pipe(PipeStatement::new(statement, next_statement));
            } else {
                done = true;
            }
        }
        Ok(statement)
    }

    fn parse_primary_statement(&mut self) -> (result: Result<Statement, Diagnostic>)
        requires
            old(self).inside(),
        ensures
            final(self).parsed(
                old(self),
                stage(old(self).text(), old(self).position()),
                result,
            ),
        decreases old(self).text().len() - old(self).position(), 8nat,
    {
        let token = self.peek()?;
        match token.kind {
            TokenType::Select => Ok(Statement::Select(self.parse_select_statement()?)),
            TokenType::From => Ok(Statement::From(self.parse_from_clause()?)),
            TokenType::Join => Ok(Statement::Join(self.parse_join_clause()?)),
            TokenType::Where => Ok(Statement::Where(self.parse_where_clause()?)),
            TokenType::Group => Ok(Statement::GroupBy(self.parse_group_by_clause()?)),
            TokenType::Order => Ok(Statement::Order(self.parse_order_clause()?)),
            TokenType::Limit => Ok(Statement::Limit(self.parse_limit_clause()?)),
            TokenType::Aggregate => Ok(Statement::Aggregate(self.parse_aggregate_clause()?)),
            _ => Err(Self::report_unexpected_token(&token)),
        }
    }

    fn parse_aggregate_clause(&mut self) -> (result: Result<AggregateClause, Diagnostic>)
        requires
            old(self).inside(),
        ensures
            final(self).parsed(
                old(self),
                aggregate_clause(old(self).text(), old(self).position()),
                result,
            ),
        decreases old(self).text().len() - old(self).position(), 7nat,
    {
        let aggregate_range = self.consume_expect_token(TokenType::Aggregate)?.range;
        let function = self.parse_aggregate_function()?;
        let _ = self.consume_expect_token(TokenType::LeftParen)?;
        let argument = self.parse_expression()?;
        let _ = self.consume_expect_token(TokenType::RightParen)?;
        let alias = self.parse_alias()?;
        let range = self.covered(&aggregate_range);
        Ok(AggregateClause::new(function, argument, alias, range))
    }

    fn parse_select_statement(&mut self) -> (result: Result<SelectStatement, Diagnostic>)
        requires
            old(self).inside(),
        ensures
            final(self).parsed(
                old(self),
                select_statement(old(self).text(), old(self).position()),
                result,
            ),
        decreases old(self).text().len() - old(self).position(), 7nat,
    {
        let select_range = self.consume_expect_token(TokenType::Select)?.range;
        let is_distinct = self.match_token_and_consume(TokenType::Distinct)?.is_some();
        let expressions = self.parse_select_items()?;
        let range = self.covered(&select_range);
        let ghost items = views(expressions@);
        let mut select_statement = SelectStatement::new(is_distinct, expressions, range);
        proof {
            assert(select_statement@.expressions =~= items);
        }
        if self.match_token(&TokenType::From)? {
            let from = self.parse_from_clause()?;
            select_statement.with_from_clause(from);
            proof {
                assert(select_statement@.expressions =~= items);
            }
        }
        Ok(select_statement)
    }

    fn parse_select_expression(&mut self) -> (result: Result<SelectExpression, Diagnostic>)
        requires
            old(self).inside(),
        ensures
            final(self).parsed(
                old(self),
                select_expression(old(self).text(), old(self).position()),
                result,
            ),
        decreases old(self).text().len() - old(self).position(), 5nat,
    {
        let expression = self.parse_expression()?;
        let alias = self.parse_alias()?;
        let mut range = expression.get_range();
        if let Some(alias) = &alias {
            range = range_from(&range, &alias.range);
        }
        Ok(SelectExpression::new(expression, alias, range))
    }

    fn parse_where_clause(&mut self) -> (result: Result<WhereClause, Diagnostic>)
        requires
            old(self).inside(),
        ensures
            final(self).parsed(
                old(self),
                where_clause(old(self).text(), old(self).position()),
                result,
            ),
        decreases old(self).text().len() - old(self).position(), 7nat,
    {
        let where_range = self.consume_expect_token(TokenType::Where)?.range;
        let condition = self.parse_condition_expression()?;
        let range = range_from(&where_range, &condition.get_range());
        Ok(WhereClause::new(condition, range))
    }

    fn parse_condition_expression(&mut self) -> (result: Result<Expression, Diagnostic>)
        requires
            old(self).inside(),
        ensures
            final(self).parsed(
                old(self),
                condition(old(self).text(), old(self).position()),
                result,
            ),
        decreases old(self).text().len() - old(self).position(), 6nat,
    {
        let left = self.parse_expression()?;
        let operator = self.parse_operator()?;
        let right = self.parse_expression()?;
        Ok(Expression::create_condition(left, operator, right))
    }

    fn parse_expression(&mut self) -> (result: Result<Expression, Diagnostic>)
        requires
            old(self).inside(),
        ensures
            final(self).parsed(
                old(self),
                expression(old(self).text(), old(self).position()),
                result,
            ),
        decreases old(self).text().len() - old(self).position(), 4nat,
    {
        let token = self.peek()?;
        match token.kind {
            TokenType::Identifier => self.parse_column_or_function_call(),
            TokenType::Number => {
                let literal = self.parse_number_literal()?;
                Ok(Expression::create_literal(Literal::Number(literal)))
            },
            TokenType::String => {
                let literal = self.parse_string_literal()?;
                Ok(Expression::create_literal(Literal::String(literal)))
            },
            TokenType::Boolean => {
                let literal = self.parse_boolean_literal()?;
                Ok(Expression::create_literal(Literal::Boolean(literal)))
            },
            TokenType::LeftParen => self.parse_subquery_expression(),
            _ => Err(Self::report_unexpected_token(&token)),
        }
    }

    fn parse_column_or_function_call(&mut self) -> (result: Result<Expression, Diagnostic>)
        requires
            old(self).inside(),
        ensures
            final(self).parsed(
                old(self),
                column_or_function_call(old(self).text(), old(self).position()),
                result,
            ),
        decreases old(self).text().len() - old(self).position(), 3nat,
    {
        let identifier = self.consume_expect_token(TokenType::Identifier)?;
        if self.match_token_and_consume(TokenType::LeftParen)?.is_some() {
            let arguments = self.parse_arguments()?;
            let close = self.consume_expect_token(TokenType::RightParen)?;
            let range = range_from(&identifier.range, &close.range);
            let ghost items = views(arguments@);
            let call = FunctionCallExpression::new(identifier, arguments, range);
            proof {
                assert(call@.arguments =~= items);
            }
            Ok(Expression::FunctionCall(call))
        } else {
            Ok(Expression::Column(self.parse_qualifier(identifier)?))
        }
    }

    fn parse_subquery_expression(&mut self) -> (result: Result<Expression, Diagnostic>)
        requires
            old(self).inside(),
        ensures
            final(self).parsed(
                old(self),
                subquery(old(self).text(), old(self).position()),
                result,
            ),
        decreases old(self).text().len() - old(self).position(), 3nat,
    {
        let left_paren_range = self.consume_expect_token(TokenType::LeftParen)?.range;
        let statement = self.parse_statement()?;
        let right_paren_range = self.consume_expect_token(TokenType::RightParen)?.range;
        let range = range_from(&left_paren_range, &right_paren_range);
        Ok(Expression::create_subquery(statement, range))
    }

    fn parse_aggregate_function(&mut self) -> (result: Result<AggregateFn, Diagnostic>)
        ensures
            final(self).parsed(
                old(self),
                aggregate_function(old(self).text(), old(self).position()),
                result,
            ),
    {
        let token = self.consume_token()?;
        match token.kind {
            TokenType::Count => Ok(AggregateFn::Count),
            TokenType::Sum => Ok(AggregateFn::Sum),
            TokenType::Avg => Ok(AggregateFn::Avg),
            TokenType::Min => Ok(AggregateFn::Min),
            TokenType::Max => Ok(AggregateFn::Max),
            TokenType::StdDev => Ok(AggregateFn::StdDev),
            TokenType::StdDevPop => Ok(AggregateFn::StdDevPop),
            TokenType::StdDevSamp => Ok(AggregateFn::StdDevSamp),
            TokenType::VarPop => Ok(AggregateFn::VarPop),
            TokenType::VarSamp => Ok(AggregateFn::VarSamp),
            TokenType::Variance => Ok(AggregateFn::Variance),
            TokenType::First => Ok(AggregateFn::First),
            TokenType::Last => Ok(AggregateFn::Last),
            TokenType::StringAgg => Ok(AggregateFn::StringAgg),
            TokenType::Median => Ok(AggregateFn::Median),
            TokenType::Mode => Ok(AggregateFn::Mode),
            TokenType::ArrayAgg => Ok(AggregateFn::ArrayAgg),
            TokenType::JsonAgg => Ok(AggregateFn::JsonAgg),
            TokenType::BitAnd => Ok(AggregateFn::BitAnd),
            TokenType::BitOr => Ok(AggregateFn::BitOr),
            TokenType::BoolAnd => Ok(AggregateFn::BoolAnd),
            TokenType::BoolOr => Ok(AggregateFn::BoolOr),
            _ => Err(Self::report_unexpected_token(&token)),
        }
    }

    fn parse_operator(&mut self) -> (result: Result<Operator, Diagnostic>)
        ensures
            final(self).parsed(old(self), operator(old(self).text(), old(self).position()), result),
    {
        let token = self.consume_token()?;
        match token.kind {
            TokenType::Equal => Ok(Operator::Equal),
            TokenType::NotEqual => Ok(Operator::NotEqual),
            TokenType::LessThan => Ok(Operator::LessThan),
            TokenType::GreaterThan => Ok(Operator::GreaterThan),
            TokenType::LessThanOrEqual => Ok(Operator::LessThanOrEqual),
            TokenType::GreaterThanOrEqual => Ok(Operator::GreaterThanOrEqual),
            TokenType::And => Ok(Operator::And),
            TokenType::Or => Ok(Operator::Or),
            _ => Err(Self::report_unexpected_token(&token)),
        }
    }

    fn parse_number_literal(&mut self) -> (result: Result<NumberLiteral, Diagnostic>)
        ensures
            final(self).parsed(
                old(self),
                number_literal(old(self).text(), old(self).position()),
                result,
            ),
    {
        let token = self.consume_expect_token(TokenType::Number)?;
        match token.lexeme {
            Some(value) => Ok(NumberLiteral::new(value, token.range)),
            None => Err(
                Self::report_token_with_message(
                    String::from_str("expected number literal"),
                    &Token::create_simple_token(token.kind, token.range),
                ),
            ),
        }
    }

    fn parse_string_literal(&mut self) -> (result: Result<StringLiteral, Diagnostic>)
        ensures
            final(self).parsed(
                old(self),
                string_literal(old(self).text(), old(self).position()),
                result,
            ),
    {
        let token = self.consume_expect_token(TokenType::String)?;
        match token.lexeme {
            Some(value) => Ok(StringLiteral::new(value, token.range)),
            None => Err(
                Self::report_token_with_message(
                    String::from_str("expected string literal"),
                    &Token::create_simple_token(token.kind, token.range),
                ),
            ),
        }
    }

    fn parse_boolean_literal(&mut self) -> (result: Result<BooleanLiteral, Diagnostic>)
        ensures
            final(self).parsed(
                old(self),
                boolean_literal(old(self).text(), old(self).position()),
                result,
            ),
    {
        let token = self.consume_expect_token(TokenType::Boolean)?;
        let value = match &token.lexeme {
            Some(text) => same_text(text.as_str(), "true"),
            None => false,
        };
        Ok(BooleanLiteral::new(value, token.range))
    }

    /// What may follow the name of a column: a dot and a qualifier.
    fn parse_qualifier(&mut self, name: Token) -> (result: Result<ColumnExpression, Diagnostic>)
        ensures
            final(self).reads_with(old(self)),
            old(self).inside(),
            final(self).inside(),
            old(self).position() <= final(self).position(),
            gives(
                qualified(old(self).text(), old(self).position(), name@),
                result,
                final(self).position(),
            ),
    {
        if self.match_token_and_consume(TokenType::Dot)?.is_some() {
            let qualifier = self.consume_expect_token(TokenType::Identifier)?;
            let range = range_from(&name.range, &qualifier.range);
            Ok(ColumnExpression::new(Some(qualifier), name, range))
        } else {
            let range = name.range;
            Ok(ColumnExpression::new(None, name, range))
        }
    }

    fn parse_column(&mut self) -> (result: Result<ColumnExpression, Diagnostic>)
        ensures
            final(self).parsed(old(self), column(old(self).text(), old(self).position()), result),
    {
        let column_name = self.consume_expect_token(TokenType::Identifier)?;
        self.parse_qualifier(column_name)
    }

    fn parse_column_expression(&mut self) -> (result: Result<Expression, Diagnostic>)
        ensures
            final(self).parsed(
                old(self),
                column_expression(old(self).text(), old(self).position()),
                result,
            ),
    {
        Ok(Expression::Column(self.parse_column()?))
    }

    /// `[AS identifier]`.
    fn parse_alias(&mut self) -> (result: Result<Option<Token>, Diagnostic>)
        ensures
            final(self).reads_with(old(self)),
            old(self).inside(),
            final(self).inside(),
            old(self).position() <= final(self).position(),
            gives_optional(
                alias(old(self).text(), old(self).position()),
                result,
                final(self).position(),
            ),
    {
        if self.match_token_and_consume(TokenType::As)?.is_some() {
            Ok(Some(self.consume_expect_token(TokenType::Identifier)?))
        } else {
            Ok(None)
        }
    }

    fn parse_from_clause(&mut self) -> (result: Result<FromClause, Diagnostic>)
        ensures
            final(self).parsed(
                old(self),
                from_clause(old(self).text(), old(self).position()),
                result,
            ),
    {
        let from_range = self.consume_expect_token(TokenType::From)?.range;
        let table_name = self.consume_expect_token(TokenType::Identifier)?;
        let range = range_from(&from_range, &table_name.range);
        Ok(FromClause::new(table_name, range))
    }

    fn parse_join_clause(&mut self) -> (result: Result<JoinClause, Diagnostic>)
        ensures
            final(self).parsed(
                old(self),
                join_clause(old(self).text(), old(self).position()),
                result,
            ),
    {
        let join_range = self.consume_expect_token(TokenType::Join)?.range;
        let table_name = self.consume_expect_token(TokenType::Identifier)?;
        let _ = self.consume_expect_token(TokenType::On)?;
        let left = self.parse_column_expression()?;
        let operator = self.parse_operator()?;
        let right = self.parse_column_expression()?;
        let left_range = range_from(&join_range, &left.get_range());
        let range = range_from(&left_range, &right.get_range());
        let condition = ConditionExpression::new(left, operator, right);
        Ok(JoinClause::new(table_name, condition, range))
    }

    fn parse_limit_clause(&mut self) -> (result: Result<LimitClause, Diagnostic>)
        ensures
            final(self).parsed(
                old(self),
                limit_clause(old(self).text(), old(self).position()),
                result,
            ),
    {
        let limit_range = self.consume_expect_token(TokenType::Limit)?.range;
        let count = self.parse_number_literal()?;
        let offset = if self.match_token_and_consume(TokenType::Comma)?.is_some() {
            Some(self.parse_number_literal()?)
        } else {
            None
        };
        let mut range = range_from(&limit_range, &count.range);
        if let Some(offset) = &offset {
            range = range_from(&range, &offset.range);
        }
        Ok(LimitClause::new(count, offset, range))
    }

    fn parse_order_column(&mut self) -> (result: Result<OrderColumn, Diagnostic>)
        ensures
            final(self).parsed(
                old(self),
                order_column(old(self).text(), old(self).position()),
                result,
            ),
    {
        let column = self.parse_column_expression()?;
        let direction = if self.match_token_and_consume(TokenType::Desc)?.is_some() {
            OrderDirection::Desc
        } else {
            let _ = self.match_token_and_consume(TokenType::Asc)?;
            OrderDirection::Asc
        };
        Ok(OrderColumn::new(column, direction))
    }

    /// The columns of a list, up to where the list ends.
    fn parse_group_columns(&mut self) -> (result: Result<Vec<Expression>, Diagnostic>)
        ensures
            final(self).reads_with(old(self)),
            final(self).inside(),
            old(self).position() <= final(self).position(),
            match group_columns(old(self).text(), old(self).position(), Seq::empty()) {
                Ok((columns, next)) => result matches Ok(read) && views(read@) == columns
                    && final(self).position() == next,
                Err(diagnostic) => result matches Err(raised) && raised@ == diagnostic,
            },
    {
        let mut columns: Vec<Expression> = Vec::new();
        let ghost start = self.position();
        let mut done = false;
        proof {
            assert(views(columns@) =~= Seq::empty());
        }
        while !done
            invariant
                self.reads_with(old(self)),
                done ==> self.inside(),
                start == old(self).position(),
                start <= self.position(),
                !done ==> group_columns(self.text(), start, Seq::empty()) == group_columns(
                    self.text(),
                    self.position(),
                    views(columns@),
                ),
                done ==> group_columns(self.text(), start, Seq::empty()) == Ok::<_, DiagnosticView>(
                    (views(columns@), self.position()),
                ),
            decreases (if done { 0int } else { 1int }), self.text().len() - self.position(),
        {
            if self.match_any_token(&[TokenType::Order, TokenType::Limit])? || self.is_end()? {
                done = true;
            } else {
                let column = self.parse_column_expression()?;
                proof {
                    assert(views(columns@.push(column)) =~= views(columns@).push(column@));
                }
                columns.push(column);
                if self.match_token_and_consume(TokenType::Comma)?.is_none() {
                    done = true;
                }
            }
        }
        Ok(columns)
    }

    fn parse_group_by_clause(&mut self) -> (result: Result<GroupByClause, Diagnostic>)
        ensures
            final(self).parsed(
                old(self),
                group_by_clause(old(self).text(), old(self).position()),
                result,
            ),
    {
        let group_range = self.consume_expect_token(TokenType::Group)?.range;
        let _ = self.consume_expect_token(TokenType::By)?;
        let columns = self.parse_group_columns()?;
        let range = self.covered(&group_range);
        let clause = GroupByClause::new(columns, range);
        proof {
            assert(clause@.columns =~= views(columns@));
        }
        Ok(clause)
    }

    /// The columns of a list, up to where the list ends.
    fn parse_order_columns(&mut self) -> (result: Result<Vec<OrderColumn>, Diagnostic>)
        ensures
            final(self).reads_with(old(self)),
            final(self).inside(),
            old(self).position() <= final(self).position(),
            match order_columns(old(self).text(), old(self).position(), Seq::empty()) {
                Ok((columns, next)) => result matches Ok(read) && views(read@) == columns
                    && final(self).position() == next,
                Err(diagnostic) => result matches Err(raised) && raised@ == diagnostic,
            },
    {
        let mut columns: Vec<OrderColumn> = Vec::new();
        let ghost start = self.position();
        let mut done = false;
        proof {
            assert(views(columns@) =~= Seq::empty());
        }
        while !done
            invariant
                self.reads_with(old(self)),
                done ==> self.inside(),
                start == old(self).position(),
                start <= self.position(),
                !done ==> order_columns(self.text(), start, Seq::empty()) == order_columns(
                    self.text(),
                    self.position(),
                    views(columns@),
                ),
                done ==> order_columns(self.text(), start, Seq::empty()) == Ok::<_, DiagnosticView>(
                    (views(columns@), self.position()),
                ),
            decreases (if done { 0int } else { 1int }), self.text().len() - self.position(),
        {
            if self.match_token(&TokenType::Limit)? || self.is_end()? {
                done = true;
            } else {
                let column = self.parse_order_column()?;
                proof {
                    assert(views(columns@.push(column)) =~= views(columns@).push(column@));
                }
                columns.push(column);
                if self.match_token_and_consume(TokenType::Comma)?.is_none() {
                    done = true;
                }
            }
        }
        Ok(columns)
    }

    fn parse_order_clause(&mut self) -> (result: Result<OrderClause, Diagnostic>)
        ensures
            final(self).parsed(
                old(self),
                order_clause(old(self).text(), old(self).position()),
                result,
            ),
    {
        let order_range = self.consume_expect_token(TokenType::Order)?.range;
        let _ = self.consume_expect_token(TokenType::By)?;
        let columns = self.parse_order_columns()?;
        let range = self.covered(&order_range);
        let clause = OrderClause::new(columns, range);
        proof {
            assert(clause@.columns =~= views(columns@));
        }
        Ok(clause)
    }

    fn report_unexpected_token(token: &Token) -> (diagnostic: Diagnostic)
        ensures
            diagnostic@ == unexpected(token@),
    {
        let mut message = String::from_str("unexpected token `");
        message.append(token.kind.to_string().as_str());
        message.append("`");
        Self::report_error(message, token)
    }

    fn report_token_with_message(message: String, token: &Token) -> (diagnostic: Diagnostic)
        ensures
            diagnostic@ == missing_text(message@, token@),
    {
        Self::report_error(message, token)
    }

    fn report_error(message: String, token: &Token) -> (diagnostic: Diagnostic)
        ensures
            diagnostic@ == fatal(message@, token.range),
    {
        Diagnostic::fatal(message, token.range)
    }
}

} // verus!
