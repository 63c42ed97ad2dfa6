//! Analisador sintático: transforma tokens em uma AST por descida recursiva.

use vstd::prelude::*;
use crate::ast::{
    bloco_ok, caso_ok, cmd_ok, expr_ok, lema_span_vista, lema_vista_chamada, lema_vista_dicionario,
    lema_vista_lista, lema_vista_novo, metodo_ok, param_ok, parametros_validos, span_de, span_vista,
    lema_vista_valores, vista_campos, vista_caso, vista_casos, vista_cmd, vista_cmds, vista_corpo, vista_expr, vista_metodos, vista_param, vista_params, vistas_expr, vistas_pares, CasoEscolha, Cmd, EntradaDic, Expr, ExprV, MetodoDef,
    OpBinaria, OpLogica, OpUnaria, Parametro,
};
use crate::erros::Diagnostico;
use crate::explicacoes::{codigo_de, eh_codigo_conhecido, formato_codigo, numero_conhecido};
use crate::lexer::{car, descreve_tokens, lexico, simbolo_em, pedacos_limitados, token_bem_formado, tokens_bem_formados, Lexer};
use crate::texto::{caracteres, empurrar, escrever_numero, juntar, texto};
use crate::token::{categoria, grafia, Pedaco, Span, TipoToken, Token};

verus! {

broadcast use lema_span_vista;


// Os códigos de erro de sintaxe.
const K002: u32 = 2;
const K003: u32 = 3;
const K004: u32 = 4;
const K005: u32 = 5;
const K006: u32 = 6;
const K007: u32 = 7;
const K008: u32 = 8;
const K010: u32 = 10;
const K011: u32 = 11;
const K013: u32 = 13;
const K014: u32 = 14;
const K015: u32 = 15;
const K016: u32 = 16;
const K017: u32 = 17;
const K018: u32 = 18;
const K019: u32 = 19;
const K021: u32 = 21;
const K022: u32 = 22;

// ---- Medida de terminação dos textos interpolados ----
//
// Cada trecho `{...}` de um texto interpolado é analisado por um novo
// analisador. O tamanho do maior trecho de código diminui a cada nível de
// aninhamento, o que garante que a análise termina.

/// Um a mais que o maior trecho de código entre os pedaços.
pub open spec fn limite_pedacos(ps: Seq<Pedaco>) -> nat
    decreases ps.len(),
{
    if ps.len() == 0 {
        0
    } else {
        let r = limite_pedacos(ps.drop_last());
        let u: nat = match ps.last() {
            Pedaco::Cod(c) => c@.len() + 1,
            Pedaco::Lit(_) => 0,
        };
        if r >= u {
            r
        } else {
            u
        }
    }
}

pub open spec fn limite_token(t: Token) -> nat {
    match t.tipo {
        TipoToken::TextoInterp(ps) => limite_pedacos(ps@),
        _ => 0,
    }
}

/// Um a mais que o maior trecho de código interpolado entre os tokens.
pub open spec fn limite_interp(ts: Seq<Token>) -> nat
    decreases ts.len(),
{
    if ts.len() == 0 {
        0
    } else {
        let r = limite_interp(ts.drop_last());
        let u = limite_token(ts.last());
        if r >= u {
            r
        } else {
            u
        }
    }
}

proof fn lema_pedaco_no_limite(ps: Seq<Pedaco>, j: int)
    requires
        0 <= j < ps.len(),
        ps[j] is Cod,
    ensures
        ps[j]->Cod_0@.len() < limite_pedacos(ps),
    decreases ps.len(),
{
    if j < ps.len() - 1 {
        assert(ps.drop_last()[j] == ps[j]);
        lema_pedaco_no_limite(ps.drop_last(), j);
    }
}

proof fn lema_token_no_limite(ts: Seq<Token>, i: int)
    requires
        0 <= i < ts.len(),
    ensures
        limite_token(ts[i]) <= limite_interp(ts),
    decreases ts.len(),
{
    if i < ts.len() - 1 {
        assert(ts.drop_last()[i] == ts[i]);
        lema_token_no_limite(ts.drop_last(), i);
    }
}

proof fn lema_pedacos_limitados(ps: Seq<Pedaco>, n: nat)
    requires
        pedacos_limitados(ps, n),
    ensures
        limite_pedacos(ps) <= n,
    decreases ps.len(),
{
    if ps.len() > 0 {
        assert(pedacos_limitados(ps.drop_last(), n)) by {
            assert forall|i: int|
                0 <= i < ps.drop_last().len() && #[trigger] ps.drop_last()[i] is Cod implies ps.drop_last()[i]->Cod_0@.len()
                < n by {
                assert(ps.drop_last()[i] == ps[i]);
            }
        }
        lema_pedacos_limitados(ps.drop_last(), n);
        if ps.last() is Cod {
            assert(ps[ps.len() - 1] is Cod);
        }
    }
}

proof fn lema_tokens_limitados(ts: Seq<Token>, n: nat)
    requires
        ts.len() >= 1,
        ts.last().tipo is FimDeArquivo,
        forall|i: int| 0 <= i < ts.len() - 1 ==> token_bem_formado(#[trigger] ts[i], n),
    ensures
        limite_interp(ts) <= n,
    decreases ts.len(),
{
    lema_tokens_limitados_prefixo(ts, ts.len() as int, n);
    assert(ts.take(ts.len() as int) =~= ts);
}

proof fn lema_tokens_limitados_prefixo(ts: Seq<Token>, k: int, n: nat)
    requires
        0 <= k <= ts.len(),
        ts.len() >= 1,
        ts.last().tipo is FimDeArquivo,
        forall|i: int| 0 <= i < ts.len() - 1 ==> token_bem_formado(#[trigger] ts[i], n),
    ensures
        limite_interp(ts.take(k)) <= n,
    decreases k,
{
    if k > 0 {
        assert(ts.take(k).drop_last() =~= ts.take(k - 1));
        lema_tokens_limitados_prefixo(ts, k - 1, n);
        let t = ts[k - 1];
        assert(ts.take(k).last() == t);
        if k - 1 < ts.len() - 1 {
            assert(token_bem_formado(ts[k - 1], n));
            if let TipoToken::TextoInterp(ps) = t.tipo {
                lema_pedacos_limitados(ps@, n);
            }
        }
    } else {
        assert(ts.take(0).len() == 0);
    }
    if k == ts.len() {
        assert(ts.take(k) =~= ts);
    }
}

/// Une dois spans na mesma linha em um só (para apontar a expressão inteira).
/// Se os dois estão em linhas diferentes, fica o primeiro.
pub open spec fn unir_span_spec(a: Span, b: Span) -> Span {
    if a.linha == b.linha && a.coluna + a.comprimento <= usize::MAX && b.coluna + b.comprimento
        <= usize::MAX {
        let ini = if a.coluna <= b.coluna {
            a.coluna
        } else {
            b.coluna
        };
        let fa = a.coluna + a.comprimento;
        let fb = b.coluna + b.comprimento;
        let fim = if fa >= fb {
            fa
        } else {
            fb
        };
        Span { linha: a.linha, coluna: ini, comprimento: (fim - ini) as usize }
    } else {
        a
    }
}

pub fn unir_span(a: &Span, b: &Span) -> (s: Span)
    ensures
        s == unir_span_spec(*a, *b),
{
    if a.linha == b.linha && a.coluna <= usize::MAX - a.comprimento && b.coluna <= usize::MAX
        - b.comprimento {
        let ini = if a.coluna <= b.coluna {
            a.coluna
        } else {
            b.coluna
        };
        let fa = a.coluna + a.comprimento;
        let fb = b.coluna + b.comprimento;
        let fim = if fa >= fb {
            fa
        } else {
            fb
        };
        Span::novo(a.linha, ini, fim - ini)
    } else {
        *a
    }
}

/// Escreve `t` entre aspas, com `"`, `\\` e as quebras escapadas, como o
/// formato de depuração de um texto.
fn escrever_texto_citado(msg: &mut String, t: &str) {
    let cs = caracteres(t);
    empurrar(msg, '"');
    let mut i: usize = 0;
    while i < cs.len()
        decreases cs.len() - i,
    {
        let c = cs[i];
        if c == '"' {
            juntar(msg, "\\\"");
        } else if c == '\\' {
            juntar(msg, "\\\\");
        } else if c == '\n' {
            juntar(msg, "\\n");
        } else if c == '\t' {
            juntar(msg, "\\t");
        } else if c == '\r' {
            juntar(msg, "\\r");
        } else {
            empurrar(msg, c);
        }
        i = i + 1;
    }
    empurrar(msg, '"');
}

/// Nome amigável de um tipo de token, para mensagens de erro; os tokens com
/// conteúdo aparecem com ele, como `Inteiro(5)` ou `Texto("oi")`.
fn descricao(tipo: &TipoToken) -> String {
    match tipo {
        TipoToken::Inteiro(n) => {
            let mut m = texto("Inteiro(");
            if *n < 0 {
                empurrar(&mut m, '-');
                if *n == i64::MIN {
                    juntar(&mut m, "9223372036854775808");
                } else {
                    escrever_numero(&mut m, (-*n) as usize);
                }
            } else {
                escrever_numero(&mut m, *n as usize);
            }
            empurrar(&mut m, ')');
            return m;
        },
        TipoToken::Decimal(d) => {
            let mut m = texto("Decimal(");
            escrever_texto_citado(&mut m, d.as_str());
            empurrar(&mut m, ')');
            return m;
        },
        TipoToken::Texto(t) => {
            let mut m = texto("Texto(");
            escrever_texto_citado(&mut m, t.as_str());
            empurrar(&mut m, ')');
            return m;
        },
        TipoToken::TextoInterp(ps) => {
            let mut m = texto("TextoInterp([");
            let mut i: usize = 0;
            while i < ps.len()
                decreases ps.len() - i,
            {
                if i > 0 {
                    juntar(&mut m, ", ");
                }
                match &ps[i] {
                    Pedaco::Lit(t) => {
                        juntar(&mut m, "Lit(");
                        escrever_texto_citado(&mut m, t.as_str());
                    },
                    Pedaco::Cod(t) => {
                        juntar(&mut m, "Cod(");
                        escrever_texto_citado(&mut m, t.as_str());
                    },
                }
                empurrar(&mut m, ')');
                i = i + 1;
            }
            juntar(&mut m, "])");
            return m;
        },
        _ => {},
    }
    let s: &str = match tipo {
        TipoToken::ChaveEsq => "'{'",
        TipoToken::ChaveDir => "'}'",
        TipoToken::ParenEsq => "'('",
        TipoToken::ParenDir => "')'",
        TipoToken::ColcheteDir => "']'",
        TipoToken::Igual => "'='",
        TipoToken::Ate => "'ate'",
        TipoToken::Em => "'em'",
        TipoToken::De => "'de'",
        TipoToken::Identificador(_) => "um nome",
        TipoToken::FimDeArquivo => "o fim do arquivo",
        TipoToken::Var => "Var",
        TipoToken::Constante => "Constante",
        TipoToken::Funcao => "Funcao",
        TipoToken::Retorne => "Retorne",
        TipoToken::Se => "Se",
        TipoToken::Senao => "Senao",
        TipoToken::SenaoSe => "SenaoSe",
        TipoToken::Escolha => "Escolha",
        TipoToken::Caso => "Caso",
        TipoToken::Padrao => "Padrao",
        TipoToken::Enquanto => "Enquanto",
        TipoToken::Para => "Para",
        TipoToken::Cada => "Cada",
        TipoToken::Passo => "Passo",
        TipoToken::Pare => "Pare",
        TipoToken::Continue => "Continue",
        TipoToken::E => "E",
        TipoToken::Ou => "Ou",
        TipoToken::Nao => "Nao",
        TipoToken::Verdadeiro => "Verdadeiro",
        TipoToken::Falso => "Falso",
        TipoToken::Nulo => "Nulo",
        TipoToken::Classe => "Classe",
        TipoToken::Herda => "Herda",
        TipoToken::Metodo => "Metodo",
        TipoToken::Construtor => "Construtor",
        TipoToken::Novo => "Novo",
        TipoToken::Isto => "Isto",
        TipoToken::Base => "Base",
        TipoToken::Estatico => "Estatico",
        TipoToken::Tente => "Tente",
        TipoToken::Capture => "Capture",
        TipoToken::Finalmente => "Finalmente",
        TipoToken::Lance => "Lance",
        TipoToken::Importe => "Importe",
        TipoToken::Como => "Como",
        TipoToken::Mais => "Mais",
        TipoToken::Menos => "Menos",
        TipoToken::Estrela => "Estrela",
        TipoToken::Barra => "Barra",
        TipoToken::Porcento => "Porcento",
        TipoToken::MaisIgual => "MaisIgual",
        TipoToken::MenosIgual => "MenosIgual",
        TipoToken::EstrelaIgual => "EstrelaIgual",
        TipoToken::BarraIgual => "BarraIgual",
        TipoToken::PorcentoIgual => "PorcentoIgual",
        TipoToken::EBit => "EBit",
        TipoToken::OuBit => "OuBit",
        TipoToken::OuExclusivo => "OuExclusivo",
        TipoToken::Til => "Til",
        TipoToken::DeslocaEsq => "DeslocaEsq",
        TipoToken::DeslocaDir => "DeslocaDir",
        TipoToken::IgualIgual => "IgualIgual",
        TipoToken::Diferente => "Diferente",
        TipoToken::Menor => "Menor",
        TipoToken::Maior => "Maior",
        TipoToken::MenorIgual => "MenorIgual",
        TipoToken::MaiorIgual => "MaiorIgual",
        TipoToken::ColcheteEsq => "ColcheteEsq",
        TipoToken::Virgula => "Virgula",
        TipoToken::DoisPontos => "DoisPontos",
        TipoToken::Ponto => "Ponto",
        TipoToken::Reticencias => "Reticencias",
        TipoToken::Interrogacao => "Interrogacao",
        TipoToken::Inteiro(_) | TipoToken::Decimal(_) | TipoToken::Texto(_) | TipoToken::TextoInterp(_) => "",
    };
    texto(s)
}

pub struct Parser {
    tokens: Vec<Token>,
    pos: usize,
    /// Profundidade de laços aninhados (para validar 'pare'/'continue').
    prof_laco: usize,
    /// Profundidade de funções aninhadas (para validar 'retorne').
    prof_funcao: usize,
}

/// O analisador continua válido, com os mesmos tokens e contextos, e não recuou.
pub open spec fn mantem(a: Parser, b: Parser) -> bool {
    &&& b.bem_formado()
    &&& b.tokens_spec() == a.tokens_spec()
    &&& b.pos_spec() >= a.pos_spec()
    &&& b.em_laco() == a.em_laco()
    &&& b.em_funcao() == a.em_funcao()
    &&& b.profundidades() == a.profundidades()
}

pub open spec fn expr_res_ok(r: Result<Expr, Diagnostico>) -> bool {
    r matches Ok(e) ==> expr_ok(e)
}

fn erro(codigo: u32, mensagem: String, span: Span, rotulo: &str) -> (d: Diagnostico)
    requires
        numero_conhecido(codigo as int),
    ensures
        d.codigo@ == formato_codigo(codigo as nat),
        eh_codigo_conhecido(d.codigo@),
        d.mensagem == mensagem,
        d.span == span,
        d.rotulo matches Some(r) && r@ == rotulo@,
{
    Diagnostico::novo(codigo_de(codigo), mensagem, span).com_rotulo(texto(rotulo))
}

impl Parser {
    /// Um analisador válido: tokens terminados por `FimDeArquivo` e posição dentro deles.
    pub closed spec fn bem_formado(&self) -> bool {
        &&& self.tokens@.len() > 0
        &&& self.tokens@.last().tipo is FimDeArquivo
        &&& self.pos < self.tokens@.len()
        &&& self.prof_laco <= self.pos
        &&& self.prof_funcao <= self.pos
    }

    pub closed spec fn tokens_spec(&self) -> Seq<Token> {
        self.tokens@
    }

    pub closed spec fn pos_spec(&self) -> int {
        self.pos as int
    }

    /// Se o analisador está dentro de um laço (da função atual).
    pub closed spec fn em_laco(&self) -> bool {
        self.prof_laco > 0
    }

    /// Se o analisador está dentro de uma função.
    pub closed spec fn em_funcao(&self) -> bool {
        self.prof_funcao > 0
    }

    pub closed spec fn profundidades(&self) -> (usize, usize) {
        (self.prof_laco, self.prof_funcao)
    }

    spec fn tipo_atual(&self) -> TipoToken {
        self.tokens@[self.pos as int].tipo
    }

    spec fn no_fim(&self) -> bool {
        self.tokens@[self.pos as int].tipo is FimDeArquivo
    }

    /// Fora do fim, ainda há pelo menos mais um token (o `FimDeArquivo`).
    proof fn lema_nao_fim(&self)
        requires
            self.bem_formado(),
            !self.no_fim(),
        ensures
            self.pos + 1 < self.tokens@.len(),
            self.pos + 1 < self.tokens.len(),
    {
        assert(self.tokens@.last() == self.tokens@[self.tokens@.len() - 1]);
    }

    pub fn novo(tokens: Vec<Token>) -> (p: Parser)
        requires
            tokens@.len() > 0,
            tokens@.last().tipo is FimDeArquivo,
        ensures
            p.bem_formado(),
            p.tokens_spec() == tokens@,
            p.pos_spec() == 0,
            !p.em_laco(),
            !p.em_funcao(),
    {
        Parser { tokens, pos: 0, prof_laco: 0, prof_funcao: 0 }
    }

    fn atual(&self) -> (t: &Token)
        requires
            self.bem_formado(),
        ensures
            *t == self.tokens@[self.pos as int],
    {
        &self.tokens[self.pos]
    }

    fn fim(&self) -> (r: bool)
        requires
            self.bem_formado(),
        ensures
            r == self.no_fim(),
    {
        matches!(self.atual().tipo, TipoToken::FimDeArquivo)
    }

    fn avancar(&mut self) -> (t: Token)
        requires
            old(self).bem_formado(),
        ensures
            mantem(*old(self), *final(self)),
            old(self).no_fim() ==> final(self).pos == old(self).pos,
            !old(self).no_fim() ==> final(self).pos == old(self).pos + 1,
            t.span == old(self).tokens@[old(self).pos as int].span,
            t.lexema == old(self).tokens@[old(self).pos as int].lexema,
            categoria(t.tipo) == categoria(old(self).tipo_atual()),
            !(old(self).tipo_atual() is TextoInterp) ==> t.tipo == old(self).tipo_atual(),
            old(self).tipo_atual() is TextoInterp ==> t.tipo->TextoInterp_0@ == old(
                self,
            ).tipo_atual()->TextoInterp_0@,
    {
        let t = self.tokens[self.pos].clone();
        if !self.fim() {
            proof {
                self.lema_nao_fim();
            }
            self.pos = self.pos + 1;
        }
        t
    }

    fn verificar(&self, tipo: &TipoToken) -> (r: bool)
        requires
            self.bem_formado(),
        ensures
            r == (categoria(self.tipo_atual()) == categoria(*tipo)),
    {
        self.atual().tipo.mesma_categoria(tipo)
    }

    /// Se o token atual for de `tipo`, consome e devolve `true`.
    fn casar(&mut self, tipo: &TipoToken) -> (r: bool)
        requires
            old(self).bem_formado(),
            !(*tipo is FimDeArquivo),
        ensures
            mantem(*old(self), *final(self)),
            r == (categoria(old(self).tipo_atual()) == categoria(*tipo)),
            r ==> final(self).pos == old(self).pos + 1,
            !r ==> *final(self) == *old(self),
    {
        if self.verificar(tipo) {
            self.avancar();
            true
        } else {
            false
        }
    }

    fn consumir_msg(&mut self, tipo: &TipoToken, codigo: u32, mensagem: String, rotulo: &str) -> (r:
        Result<Token, Diagnostico>)
        requires
            numero_conhecido(codigo as int),
            old(self).bem_formado(),
            !(*tipo is FimDeArquivo),
        ensures
            r matches Err(d) ==> eh_codigo_conhecido(d.codigo@),
            mantem(*old(self), *final(self)),
            r is Ok <==> categoria(old(self).tipo_atual()) == categoria(*tipo),
            r is Ok ==> final(self).pos == old(self).pos + 1,
            r is Err ==> *final(self) == *old(self),
            r matches Err(d) ==> d.codigo@ == formato_codigo(codigo as nat),
            r matches Ok(t) ==> t.span == old(self).tokens_spec()[old(self).pos_spec()].span
                && t.lexema == old(self).tokens_spec()[old(self).pos_spec()].lexema,
    {
        if self.verificar(tipo) {
            Ok(self.avancar())
        } else {
            Err(erro(codigo, mensagem, self.atual().span, rotulo))
        }
    }

    fn consumir(&mut self, tipo: &TipoToken, codigo: u32, mensagem: &str, rotulo: &str) -> (r:
        Result<Token, Diagnostico>)
        requires
            numero_conhecido(codigo as int),
            old(self).bem_formado(),
            !(*tipo is FimDeArquivo),
        ensures
            r matches Err(d) ==> eh_codigo_conhecido(d.codigo@),
            mantem(*old(self), *final(self)),
            r is Ok <==> categoria(old(self).tipo_atual()) == categoria(*tipo),
            r is Ok ==> final(self).pos == old(self).pos + 1,
            r is Err ==> *final(self) == *old(self),
            r matches Err(d) ==> d.codigo@ == formato_codigo(codigo as nat),
            r matches Ok(t) ==> t.span == old(self).tokens_spec()[old(self).pos_spec()].span
                && t.lexema == old(self).tokens_spec()[old(self).pos_spec()].lexema,
    {
        self.consumir_msg(tipo, codigo, texto(mensagem), rotulo)
    }

    fn consumir_nome(&mut self, codigo: u32, mensagem: &str, rotulo: &str) -> (r: Result<
        Token,
        Diagnostico,
    >)
        requires
            numero_conhecido(codigo as int),
            old(self).bem_formado(),
        ensures
            r matches Err(d) ==> eh_codigo_conhecido(d.codigo@),
            mantem(*old(self), *final(self)),
            r is Ok ==> final(self).pos == old(self).pos + 1,
            r is Err ==> *final(self) == *old(self),
            r is Ok <==> old(self).tipo_atual() is Identificador,
            r matches Err(d) ==> d.codigo@ == formato_codigo(codigo as nat),
            r matches Ok(t) ==> t.span == old(self).tokens_spec()[old(self).pos_spec()].span
                && t.lexema == old(self).tokens_spec()[old(self).pos_spec()].lexema,
    {
        self.consumir(&TipoToken::Identificador(String::new()), codigo, mensagem, rotulo)
    }

    // ---- Nível superior ----
    /// Analisa o programa inteiro. Depois de um erro, descarta tokens até o
    /// começo provável da próxima declaração, para relatar vários erros de uma
    /// vez (no máximo 20).
    #[verifier::rlimit(100)]
    #[verifier::spinoff_prover]
    pub fn analisar(&mut self) -> (r: Result<Vec<Cmd>, Vec<Diagnostico>>)
        requires
            old(self).bem_formado(),
        ensures
            r matches Ok(cmds) ==> bloco_ok(cmds@, old(self).em_laco(), old(self).em_funcao()),
            r matches Err(es) ==> 1 <= es@.len() <= 20,
            r matches Err(es) ==> forall|i: int|
                0 <= i < es@.len() ==> eh_codigo_conhecido(#[trigger] es@[i].codigo@),
            programa_simples(old(self).tokens_spec(), old(self).pos_spec(), old(self).em_laco(), old(self).em_funcao()) matches Some(vs) ==> r matches Ok(
                cmds,
            ) && correspondem(cmds@, vs),
            ({
                let ek = erros_conhecidos(old(self).tokens_spec(), old(self).pos_spec(), old(self).em_laco(), old(self).em_funcao());
                ek.0.len() > 0 ==> (r matches Err(es) && (forall|k: int|
                    0 <= k < es@.len() && k < ek.0.len() ==> (#[trigger] es@[k]).codigo@ == ek.0[k].0 && es@[k].span
                        == ek.0[k].1) && es@.len() >= (if ek.0.len() <= 20 { ek.0.len() } else { 20 }) && (ek.1
                    && ek.0.len() <= 20 ==> es@.len() == ek.0.len()))
            }),
    {
        let ghost ts = self.tokens_spec();
        let ghost laco = self.em_laco();
        let ghost fun = self.em_funcao();
        let ghost ek = erros_conhecidos(ts, self.pos_spec(), laco, fun);
        let ghost mut seguindo = true;
        let mut cmds: Vec<Cmd> = Vec::new();
        let mut erros: Vec<Diagnostico> = Vec::new();
        proof {
            lema_acompanha_inicio(ts, self.pos_spec(), laco, fun);
            if self.no_fim() {
                lema_acompanha_fim(ts, self.pos_spec(), laco, fun, ek, erros@, seguindo);
            }
        }
        while !self.fim()
            invariant_except_break
                erros@.len() < 20,
                segue(ts, self.pos_spec(), laco, fun, ek, erros@, seguindo),
                self.no_fim() && seguindo ==> erros@.len() == ek.0.len(),
            invariant
                ts == self.tokens_spec(),
                laco == old(self).em_laco(),
                fun == old(self).em_funcao(),
                ek == erros_conhecidos(old(self).tokens_spec(), old(self).pos_spec(), old(self).em_laco(), old(self).em_funcao()),
                prefixo_ok(ek, erros@, seguindo),
                mantem(*old(self), *self),
                erros@.len() <= 20,
                programa_simples(old(self).tokens_spec(), old(self).pos_spec(), old(self).em_laco(), old(self).em_funcao()) matches Some(vs) ==> {
                    &&& erros@.len() == 0
                    &&& programa_simples(self.tokens@, self.pos as int, old(self).em_laco(), old(self).em_funcao()) matches Some(resto)
                    &&& vs == vs.take(cmds@.len() as int) + resto
                    &&& cmds@.len() <= vs.len()
                    &&& correspondem(cmds@, vs.take(cmds@.len() as int))
                },
                bloco_ok(cmds@, old(self).em_laco(), old(self).em_funcao()),
                forall|i: int| 0 <= i < erros@.len() ==> eh_codigo_conhecido(#[trigger] erros@[i].codigo@),
            ensures
                prefixo_ok(ek, erros@, seguindo),
                seguindo && erros@.len() < 20 ==> erros@.len() == ek.0.len(),
                mantem(*old(self), *self),
                erros@.len() <= 20,
                bloco_ok(cmds@, old(self).em_laco(), old(self).em_funcao()),
                forall|i: int| 0 <= i < erros@.len() ==> eh_codigo_conhecido(#[trigger] erros@[i].codigo@),
                programa_simples(old(self).tokens_spec(), old(self).pos_spec(), old(self).em_laco(), old(self).em_funcao()) matches Some(vs) ==> {
                    &&& erros@.len() == 0
                    &&& correspondem(cmds@, vs)
                },
            decreases self.tokens@.len() - self.pos,
        {
            let ghost p0 = self.pos;
            let ghost antes = cmds@;
            let ghost n_erros = erros@.len();
            proof {
                lema_passo_simples(ts, p0 as int, laco, fun);
            }
            match self.declaracao() {
                Ok(cmd) => {
                    proof {
                        seguindo = lema_acompanha_ok(ts, p0 as int, self.pos_spec(), laco, fun, ek, erros@, seguindo);
                    }
                    let ghost c0 = cmd;
                    cmds.push(cmd);
                    proof {
                        if programa_simples(old(self).tokens_spec(), old(self).pos_spec(), old(self).em_laco(), old(self).em_funcao()) is Some {
                            let vs = programa_simples(old(self).tokens_spec(), old(self).pos_spec(), old(self).em_laco(), old(self).em_funcao())->0;
                            lema_programa_passo(vs, antes, c0, cmds@, ts, p0 as int, self.pos_spec(), laco, fun);
                        }
                    }
                },
                Err(diag) => {
                    let ghost d = diag;
                    let ghost parada = self.pos_spec();
                    let ghost es0 = erros@;
                    erros.push(diag);
                    proof {
                        seguindo = lema_acompanha_erro(ts, p0 as int, parada, laco, fun, ek, es0, d, seguindo);
                    }
                    // limita para não inundar a saída em arquivos muito quebrados
                    if erros.len() >= 20 {
                        break;
                    }
                    self.sincronizar();
                    proof {
                        assert(self.pos_spec() == retomada(ts, parada));
                    }
                },
            }
            assert(self.pos > p0 || self.no_fim());
            proof {
                if self.no_fim() {
                    lema_acompanha_fim(ts, self.pos_spec(), laco, fun, ek, erros@, seguindo);
                }
            }
        }
        proof {
            if programa_simples(old(self).tokens_spec(), old(self).pos_spec(), old(self).em_laco(), old(self).em_funcao()) is Some {
                let vs = programa_simples(old(self).tokens_spec(), old(self).pos_spec(), old(self).em_laco(), old(self).em_funcao())->0;
                assert(vs.take(cmds@.len() as int) =~= vs);
            }
        }
        proof {
            lema_acompanha_final(ek, erros@, seguindo);
        }
        if erros.len() == 0 {
            Ok(cmds)
        } else {
            Err(erros)
        }
    }

    /// Após um erro, descarta tokens até o começo provável da próxima declaração.
    fn sincronizar(&mut self)
        requires
            old(self).bem_formado(),
        ensures
            mantem(*old(self), *final(self)),
            !old(self).no_fim() ==> final(self).pos > old(self).pos,
            !old(self).no_fim() ==> final(self).pos_spec() == sincronia(old(self).tokens_spec(), old(self).pos_spec() + 1),
            old(self).no_fim() ==> final(self).pos_spec() == old(self).pos_spec(),
    {
        // garante progresso: consome ao menos o token problemático
        if !self.fim() {
            self.avancar();
        }
        while !self.fim()
            invariant
                mantem(*old(self), *self),
                !old(self).no_fim() ==> self.pos > old(self).pos,
                !old(self).no_fim() ==> sincronia(self.tokens_spec(), self.pos_spec()) == sincronia(
                    old(self).tokens_spec(),
                    old(self).pos_spec() + 1,
                ),
                old(self).no_fim() ==> self.pos_spec() == old(self).pos_spec(),
            decreases self.tokens@.len() - self.pos,
        {
            if matches!(
                self.atual().tipo,
                TipoToken::Var | TipoToken::Constante | TipoToken::Funcao | TipoToken::Classe
                    | TipoToken::Importe | TipoToken::Se | TipoToken::Enquanto | TipoToken::Para
                    | TipoToken::Retorne | TipoToken::Tente | TipoToken::Lance
            ) {
                return ;
            }
            self.avancar();
        }
    }

    /// Analisa uma única expressão completa (usado ao interpolar textos).
    pub fn analisar_expressao(&mut self) -> (r: Result<Expr, Diagnostico>)
        requires
            old(self).bem_formado(),
        ensures
            r matches Err(d) ==> eh_codigo_conhecido(d.codigo@),
            mantem(*old(self), *final(self)),
            expr_res_ok(r),
            expr_simples(old(self).tokens_spec(), old(self).pos_spec(), 14) matches Some((e, j)) ==> if old(
                self,
            ).tokens_spec()[j].tipo is FimDeArquivo {
                r matches Ok(x) && vista_expr(x) == e
            } else {
                r matches Err(d) && d.codigo@ == formato_codigo(18) && d.span == old(self).tokens_spec()[j].span
            },
        decreases limite_interp(old(self).tokens_spec()), old(self).tokens_spec().len() - old(self).pos_spec(), 17nat,
    {
        let e = self.expressao()?;
        if !self.fim() {
            return Err(
                erro(
                    K018,
                    texto("expressão extra na interpolação"),
                    self.atual().span,
                    "sobrou isto",
                ),
            );
        }
        Ok(e)
    }

    #[verifier::spinoff_prover]
    #[verifier::rlimit(60)]
    fn declaracao(&mut self) -> (r: Result<Cmd, Diagnostico>)
        requires
            old(self).bem_formado(),
        ensures
            r matches Err(d) ==> eh_codigo_conhecido(d.codigo@),
            mantem(*old(self), *final(self)),
            r is Ok ==> final(self).pos > old(self).pos,
            r matches Ok(c) ==> cmd_ok(c, old(self).em_laco(), old(self).em_funcao()),
            ({
                let ts = old(self).tokens_spec();
                let t = ts[old(self).pos_spec()];
                &&& t.tipo is Var ==> (r matches Ok(c) ==> (c matches Cmd::DeclVar { constante: k, .. }
                    && !k) || (c matches Cmd::DeclVarMulti { constante: k, .. } && !k))
                &&& t.tipo is Constante ==> (r matches Ok(c) ==> (c matches Cmd::DeclVar {
                    constante: k,
                    ..
                } && k) || (c matches Cmd::DeclVarMulti { constante: k, .. } && k))
                &&& t.tipo is Importe ==> (r matches Ok(c) ==> c is Importe)
                &&& t.tipo is Classe ==> (r matches Ok(c) ==> c is DeclClasse)
                &&& t.tipo is Funcao && old(self).pos_spec() + 1 < ts.len() && ts[old(self).pos_spec()
                    + 1].tipo is Identificador ==> (r matches Ok(c) ==> c is DeclFuncao)
            }),
            cmd_simples(old(self).tokens_spec(), old(self).pos_spec(), old(self).em_laco(), old(self).em_funcao()) matches Some((c, j)) ==> r matches Ok(x)
                && corresponde(x, c) && final(self).pos_spec() == j,
            rejeicao(old(self).tokens_spec(), old(self).pos_spec(), old(self).em_laco(), old(self).em_funcao()) matches Some((c, s, p))
                ==> r matches Err(d) && d.codigo@ == c && d.span == s && final(self).pos_spec() == p,
        decreases limite_interp(old(self).tokens_spec()), old(self).tokens_spec().len() - old(self).pos_spec(), 23nat,
    {
        proof {
            passo_cmd_simples(self.tokens_spec(), self.pos_spec(), self.em_laco(), self.em_funcao());
        }
        proof {
            reveal_with_fuel(rejeicao, 1);
        }
        match &self.atual().tipo {
            TipoToken::Var => self.decl_var(false),
            TipoToken::Constante => self.decl_var(true),
            TipoToken::Importe => self.decl_importe(),
            TipoToken::Classe => self.decl_classe(),
            TipoToken::Funcao => {
                // pode ser declaração de função nomeada ou função anônima em expressão.
                proof {
                    self.lema_nao_fim();
                }
                if matches!(self.tokens[self.pos + 1].tipo, TipoToken::Identificador(_)) {
                    self.decl_funcao()
                } else {
                    self.comando()
                }
            },
            _ => self.comando(),
        }
    }

    /// Os nomes depois de `primeiro`, cada um depois de uma vírgula.
    fn nomes_seguintes(&mut self, primeiro: String, codigo: u32, mensagem: &str, rotulo: &str) -> (r: Result<
        Vec<String>,
        Diagnostico,
    >)
        requires
            numero_conhecido(codigo as int),
            old(self).bem_formado(),
        ensures
            r matches Err(d) ==> eh_codigo_conhecido(d.codigo@),
            mantem(*old(self), *final(self)),
            nomes_multi(old(self).tokens_spec(), old(self).pos_spec(), seq![primeiro]) matches Some((ns, k)) ==> r matches Ok(
                v,
            ) && v@ == ns && final(self).pos_spec() == k,
    {
        let ghost ts = self.tokens_spec();
        let ghost alvo = nomes_multi(ts, self.pos_spec(), seq![primeiro]);
        let mut nomes: Vec<String> = Vec::new();
        nomes.push(primeiro);
        proof {
            assert(nomes@ =~= seq![primeiro]);
        }
        while self.casar(&TipoToken::Virgula)
            invariant
                numero_conhecido(codigo as int),
                mantem(*old(self), *self),
                ts == self.tokens_spec(),
                alvo == nomes_multi(old(self).tokens_spec(), old(self).pos_spec(), seq![primeiro]),
                alvo is Some ==> nomes_multi(ts, self.pos_spec(), nomes@) == alvo,
            decreases self.tokens@.len() - self.pos,
        {
            let ghost antes = nomes@;
            let n = self.consumir_nome(codigo, mensagem, rotulo)?;
            nomes.push(n.lexema);
            proof {
                assert(nomes@ =~= antes.push(n.lexema));
            }
        }
        Ok(nomes)
    }

    fn decl_var(&mut self, constante: bool) -> (r: Result<Cmd, Diagnostico>)
        requires
            old(self).bem_formado(),
            !old(self).no_fim(),
        ensures
            r matches Ok(c)
                ==> ((c matches Cmd::DeclVar { constante: k, .. } && k == constante) || (c matches Cmd::DeclVarMulti { constante: k, .. } && k == constante)),
            r matches Err(d) ==> eh_codigo_conhecido(d.codigo@),
            mantem(*old(self), *final(self)),
            r is Ok ==> final(self).pos > old(self).pos,
            r matches Ok(c) ==> cmd_ok(c, old(self).em_laco(), old(self).em_funcao()),
            ({
                let ts = old(self).tokens_spec();
                let i = old(self).pos_spec();
                i + 3 < ts.len() && ts[i + 1].tipo is Identificador && ts[i + 2].tipo is Igual && sem_expressao(
                    ts[i + 3].tipo,
                ) ==> (r matches Err(d) && d.codigo@ == formato_codigo(8) && d.span == ts[i + 3].span
                    && final(self).pos_spec() == i + 3)
            }),
            (if constante { old(self).tipo_atual() is Constante } else { old(self).tipo_atual() is Var })
                ==> (decl_simples(old(self).tokens_spec(), old(self).pos_spec()) matches Some((c, j)) ==> r matches Ok(
                x,
            ) && corresponde(x, c) && final(self).pos_spec() == j),
        decreases limite_interp(old(self).tokens_spec()), old(self).tokens_spec().len() - old(self).pos_spec(), 20nat,
    {
        broadcast use grupo_gramatica;

        let inicio = self.avancar();  // 'var' ou 'constante'
        let nome_tok = self.consumir_nome(
            K002,
            "esperava o nome da variável",
            "declare um nome aqui",
        )?;
        let nome = nome_tok.lexema;

        // desempacotamento: var a, b = ...
        if self.verificar(&TipoToken::Virgula) {
            let nomes = self.nomes_seguintes(
                nome,
                K002,
                "esperava o nome de uma variável",
                "nome da variável aqui",
            )?;
            self.consumir(
                &TipoToken::Igual,
                K003,
                "esperava '=' após os nomes",
                "atribua os valores com '='",
            )?;
            let valores = self.lista_valores()?;
            return Ok(Cmd::DeclVarMulti { nomes, valores, constante, span: inicio.span });
        }
        let mut msg = texto("esperava '=' após o nome '");
        msg.append(nome.as_str());
        juntar(&mut msg, "'");
        self.consumir_msg(&TipoToken::Igual, K003, msg, "atribua um valor com '='")?;
        let valor = self.expressao()?;
        let span = unir_span(&inicio.span, &valor.span());
        Ok(Cmd::DeclVar { nome, valor, constante, span })
    }

    #[verifier::rlimit(40)]
    #[verifier::spinoff_prover]
    fn decl_funcao(&mut self) -> (r: Result<Cmd, Diagnostico>)
        requires
            old(self).bem_formado(),
            !old(self).no_fim(),
            old(self).pos + 1 < old(self).tokens@.len(),
            !(old(self).tokens@[old(self).pos + 1].tipo is FimDeArquivo),
        ensures
            r matches Ok(c) ==> (c is DeclFuncao),
            r matches Ok(c) ==> (c matches Cmd::DeclFuncao { nome, span, .. } && nome == old(
                self,
            ).tokens_spec()[old(self).pos_spec() + 1].lexema && span == old(self).tokens_spec()[old(
                self,
            ).pos_spec()].span),
            r matches Err(d) ==> eh_codigo_conhecido(d.codigo@),
            mantem(*old(self), *final(self)),
            r is Ok ==> final(self).pos > old(self).pos,
            r matches Ok(c) ==> cmd_ok(c, old(self).em_laco(), old(self).em_funcao()),
            funcao_simples(old(self).tokens_spec(), old(self).pos_spec()) matches Some((v, k)) ==> r matches Ok(c)
                && corresponde(c, v) && final(self).pos_spec() == k,
            ({
                let ts = old(self).tokens_spec();
                let i = old(self).pos_spec();
                params_simples(ts, i + 2) matches Some((_, k)) ==> (i < k ==> (erro_bloco(ts, k, false, true) matches Some(
                    (c, s, p),
                ) ==> (r matches Err(d) && d.codigo@ == c && d.span == s && final(self).pos_spec() == p)))
            }),
        decreases limite_interp(old(self).tokens_spec()), old(self).tokens_spec().len() - old(self).pos_spec(), 20nat,
    {
        proof {
            passo_funcao_simples(self.tokens_spec(), self.pos_spec());
        }
        let inicio = self.avancar();  // 'funcao'
        let nome_tok = self.avancar();  // já sabemos que é Identificador
        let nome = nome_tok.lexema;
        let params = self.lista_parametros()?;
        let corpo = self.corpo_funcao()?;
        Ok(Cmd::DeclFuncao { nome, params, corpo, span: inicio.span })
    }

    fn decl_importe(&mut self) -> (r: Result<Cmd, Diagnostico>)
        requires
            old(self).bem_formado(),
            !old(self).no_fim(),
        ensures
            r matches Ok(c) ==> (c is Importe),
            ({
                let ts = old(self).tokens_spec();
                let i = old(self).pos_spec();
                let como = ts[i + 2].tipo is Como;
                &&& r is Ok <==> (ts[i + 1].tipo is Texto && (como ==> ts[i + 3].tipo is Identificador))
                &&& r matches Ok(c) ==> c == (Cmd::Importe {
                    caminho: ts[i + 1].lexema,
                    alias: if como { Some(ts[i + 3].lexema) } else { None },
                    span: ts[i].span,
                })
                &&& r is Ok ==> final(self).pos_spec() == if como { i + 4 } else { i + 2 }
                &&& r matches Err(d) ==> d.codigo@ == formato_codigo(17)
            }),
            importe_simples(old(self).tokens_spec(), old(self).pos_spec()) matches Some((v, k)) ==> r matches Ok(c)
                && corresponde(c, v) && final(self).pos_spec() == k,
            r matches Err(d) ==> eh_codigo_conhecido(d.codigo@),
            mantem(*old(self), *final(self)),
            r is Ok ==> final(self).pos > old(self).pos,
            r matches Ok(c) ==> cmd_ok(c, old(self).em_laco(), old(self).em_funcao()),
        decreases limite_interp(old(self).tokens_spec()), old(self).tokens_spec().len() - old(self).pos_spec(), 20nat,
    {
        let inicio = self.avancar();  // 'importe'
        let caminho = self.consumir(
            &TipoToken::Texto(String::new()),
            K017,
            "esperava o caminho do arquivo entre aspas",
            "ex.: importe \"utilidades.kaju\"",
        )?;
        let alias = if self.casar(&TipoToken::Como) {
            let nome = self.consumir_nome(
                K017,
                "esperava um nome após 'como'",
                "ex.: importe \"mat.kaju\" como mat",
            )?;
            Some(nome.lexema)
        } else {
            None
        };
        Ok(Cmd::Importe { caminho: caminho.lexema, alias, span: inicio.span })
    }

    #[verifier::rlimit(60)]
    #[verifier::spinoff_prover]
    fn decl_classe(&mut self) -> (r: Result<Cmd, Diagnostico>)
        requires
            old(self).bem_formado(),
            !old(self).no_fim(),
        ensures
            r matches Ok(c) ==> (c is DeclClasse),
            r matches Ok(c) ==> ({
                let ts = old(self).tokens_spec();
                let i = old(self).pos_spec();
                c matches Cmd::DeclClasse { nome, superclasse, span, .. } && {
                    &&& ts[i + 1].tipo is Identificador
                    &&& nome == ts[i + 1].lexema
                    &&& span == ts[i].span
                    &&& superclasse == if ts[i + 2].tipo is Herda {
                        Some(ts[i + 3].lexema)
                    } else {
                        None::<String>
                    }
                }
            }),
            r matches Err(d) ==> eh_codigo_conhecido(d.codigo@),
            mantem(*old(self), *final(self)),
            r is Ok ==> final(self).pos > old(self).pos,
            r matches Ok(c) ==> cmd_ok(c, old(self).em_laco(), old(self).em_funcao()),
            classe_simples(old(self).tokens_spec(), old(self).pos_spec()) matches Some((v, k)) ==> r matches Ok(c)
                && corresponde(c, v) && final(self).pos_spec() == k,
        decreases limite_interp(old(self).tokens_spec()), old(self).tokens_spec().len() - old(self).pos_spec(), 20nat,
    {
        let ghost ts = self.tokens_spec();
        let ghost i = self.pos_spec();
        let ghost alvo = classe_simples(ts, i);
        let ghost herda = ts[i + 2].tipo is Herda;
        let ghost j0: int = if herda { i + 4 } else { i + 2 };
        let ghost fim = membros_de(ts, j0 + 1, sem_membros());
        let ghost mut acc = sem_membros();
        proof {
            if alvo is Some {
                lema_classe_simples(ts, i);
            }
        }
        let inicio = self.avancar();  // 'classe'
        let nome_tok = self.consumir_nome(
            K013,
            "esperava o nome da classe",
            "dê um nome à classe aqui",
        )?;
        let nome = nome_tok.lexema;

        let superclasse = if self.casar(&TipoToken::Herda) {
            let sup = self.consumir_nome(
                K013,
                "esperava o nome da superclasse após 'herda'",
                "nome da superclasse aqui",
            )?;
            Some(sup.lexema)
        } else {
            None
        };

        self.consumir(
            &TipoToken::ChaveEsq,
            K013,
            "esperava '{' para abrir o corpo da classe",
            "abra o corpo da classe com '{'",
        )?;

        let mut construtor: Option<MetodoDef> = None;
        let mut metodos: Vec<MetodoDef> = Vec::new();
        let mut metodos_estaticos: Vec<MetodoDef> = Vec::new();
        let mut campos_estaticos: Vec<(String, Expr)> = Vec::new();
        assert(alvo is Some ==> self.pos_spec() == j0 + 1);
        while !self.verificar(&TipoToken::ChaveDir) && !self.fim()
            invariant
                mantem(*old(self), *self),
                self.pos > old(self).pos,
                ts == self.tokens_spec(),
                alvo == classe_simples(old(self).tokens_spec(), old(self).pos_spec()),
                alvo is Some ==> fim is Some && membros_de(ts, self.pos_spec(), acc) == fim
                    && membros_correspondem(construtor, metodos@, metodos_estaticos@, campos_estaticos@, acc),
                construtor matches Some(m) ==> metodo_ok(m),
                forall|i: int| 0 <= i < metodos@.len() ==> metodo_ok(#[trigger] metodos@[i]),
                forall|i: int|
                    0 <= i < metodos_estaticos@.len() ==> metodo_ok(#[trigger] metodos_estaticos@[i]),
                forall|i: int|
                    0 <= i < campos_estaticos@.len() ==> expr_ok((#[trigger] campos_estaticos@[i]).1),
            decreases self.tokens@.len() - self.pos,
        {
            let ghost j = self.pos_spec();
            let ghost passo = membro_simples(ts, j);
            proof {
                if alvo is Some {
                    lema_membros_passo(ts, j, acc);
                }
            }
            let membro = self.membro()?;
            let ghost mg = membro;
            let ghost k0 = construtor;
            let ghost ms0 = metodos@;
            let ghost es0 = metodos_estaticos@;
            let ghost cs0 = campos_estaticos@;
            match membro {
                Membro::Construtor(m) => {
                    construtor = Some(m);
                },
                Membro::Metodo(m) => {
                    metodos.push(m);
                },
                Membro::MetodoEstatico(m) => {
                    metodos_estaticos.push(m);
                },
                Membro::CampoEstatico(n, e) => {
                    campos_estaticos.push((n, e));
                },
            }
            proof {
                if alvo is Some {
                    lema_acrescenta(
                        mg,
                        k0,
                        ms0,
                        es0,
                        cs0,
                        acc,
                        construtor,
                        metodos@,
                        metodos_estaticos@,
                        campos_estaticos@,
                        passo.unwrap().0,
                    );
                }
                acc = acrescenta(acc, passo.unwrap().0);
            }
        }

        proof {
            if alvo is Some {
                lema_membros_fim(ts, self.pos_spec(), acc);
            }
        }
        self.consumir(
            &TipoToken::ChaveDir,
            K013,
            "esperava '}' para fechar a classe",
            "feche a classe com '}'",
        )?;

        Ok(
            Cmd::DeclClasse {
                nome,
                superclasse,
                construtor,
                metodos,
                metodos_estaticos,
                campos_estaticos,
                span: inicio.span,
            },
        )
    }

    /// Analisa um membro de classe: `construtor`, `metodo` ou `estatico`.
    #[verifier::rlimit(40)]
    #[verifier::spinoff_prover]
    fn membro(&mut self) -> (r: Result<Membro, Diagnostico>)
        requires
            old(self).bem_formado(),
        ensures
            r matches Err(d) ==> eh_codigo_conhecido(d.codigo@),
            mantem(*old(self), *final(self)),
            r is Ok ==> final(self).pos > old(self).pos,
            r matches Ok(m) ==> match m {
                Membro::Construtor(d) => metodo_ok(d),
                Membro::Metodo(d) => metodo_ok(d),
                Membro::MetodoEstatico(d) => metodo_ok(d),
                Membro::CampoEstatico(_, e) => expr_ok(e),
            },
            membro_simples(old(self).tokens_spec(), old(self).pos_spec()) matches Some((v, l)) ==> r matches Ok(m)
                && membro_corresponde(m, v) && final(self).pos_spec() == l,
        decreases limite_interp(old(self).tokens_spec()), old(self).tokens_spec().len() - old(self).pos_spec(), 22nat,
    {
        let ghost ts = self.tokens_spec();
        let ghost j = self.pos_spec();
        proof {
            if membro_simples(ts, j) is Some {
                lema_membro_simples(ts, j);
            }
        }
        if self.verificar(&TipoToken::Construtor) {
            let m = self.membro_construtor()?;
            Ok(Membro::Construtor(m))
        } else if self.verificar(&TipoToken::Metodo) {
            let m = self.membro_metodo()?;
            Ok(Membro::Metodo(m))
        } else if self.verificar(&TipoToken::Estatico) {
            // membro estático: 'estatico metodo ...' ou 'estatico nome = valor'
            self.avancar();
            if self.verificar(&TipoToken::Metodo) {
                let m = self.membro_metodo()?;
                Ok(Membro::MetodoEstatico(m))
            } else {
                let (nome_c, valor) = self.membro_campo()?;
                Ok(Membro::CampoEstatico(nome_c, valor))
            }
        } else {
            Err(
                erro(
                    K013,
                    texto("dentro de uma classe só cabem 'construtor', 'metodo' e 'estatico'"),
                    self.atual().span,
                    "não esperava isto aqui",
                ).com_ajuda(texto("declare um método com 'metodo nome(...) { ... }'")),
            )
        }
    }

    /// Analisa `construtor(params) { corpo }` (o token 'construtor' está no atual).
    #[verifier::rlimit(40)]
    #[verifier::spinoff_prover]
    fn membro_construtor(&mut self) -> (r: Result<MetodoDef, Diagnostico>)
        requires
            old(self).bem_formado(),
            !old(self).no_fim(),
        ensures
            r matches Err(d) ==> eh_codigo_conhecido(d.codigo@),
            mantem(*old(self), *final(self)),
            r is Ok ==> final(self).pos > old(self).pos,
            r matches Ok(m) ==> metodo_ok(m),
            corpo_simples(old(self).tokens_spec(), old(self).pos_spec() + 1) matches Some((v, l)) ==> r matches Ok(m)
                && corpo_corresponde(m, v) && final(self).pos_spec() == l,
        decreases limite_interp(old(self).tokens_spec()), old(self).tokens_spec().len() - old(self).pos_spec(), 20nat,
    {
        proof {
            if corpo_simples(self.tokens_spec(), self.pos_spec() + 1) is Some {
                lema_corpo_simples(self.tokens_spec(), self.pos_spec() + 1);
            }
        }
        self.avancar();  // 'construtor'
        let params = self.lista_parametros()?;
        let corpo = self.corpo_funcao()?;
        Ok(MetodoDef { nome: texto("construtor"), params, corpo })
    }

    /// Analisa `nome = valor` de um campo estático (depois de 'estatico').
    fn membro_campo(&mut self) -> (r: Result<(String, Expr), Diagnostico>)
        requires
            old(self).bem_formado(),
        ensures
            r matches Err(d) ==> eh_codigo_conhecido(d.codigo@),
            mantem(*old(self), *final(self)),
            r is Ok ==> final(self).pos > old(self).pos,
            r matches Ok((_, e)) ==> expr_ok(e),
            ({
                let ts = old(self).tokens_spec();
                let j = old(self).pos_spec();
                j + 1 < ts.len() && ts[j].tipo is Identificador && ts[j + 1].tipo is Igual ==> (expr_ate(ts, j + 2) matches Some(
                    (v, l),
                ) ==> r matches Ok((n, e)) && n == ts[j].lexema && vista_expr(e) == v && final(self).pos_spec() == l)
            }),
        decreases limite_interp(old(self).tokens_spec()), old(self).tokens_spec().len() - old(self).pos_spec(), 20nat,
    {
        broadcast use grupo_gramatica;

        let nome_c = self.consumir_nome(
            K013,
            "esperava o nome de um campo estático ou 'metodo'",
            "ex.: 'estatico contador = 0' ou 'estatico metodo criar() {}'",
        )?;
        self.consumir(
            &TipoToken::Igual,
            K013,
            "esperava '=' após o nome do campo estático",
            "dê um valor inicial ao campo estático",
        )?;
        let valor = self.expressao()?;
        Ok((nome_c.lexema, valor))
    }

    /// Analisa `metodo nome(params) { corpo }` (o token 'metodo' está no atual).
    fn membro_metodo(&mut self) -> (r: Result<MetodoDef, Diagnostico>)
        requires
            old(self).bem_formado(),
            !old(self).no_fim(),
        ensures
            r matches Err(d) ==> eh_codigo_conhecido(d.codigo@),
            mantem(*old(self), *final(self)),
            r is Ok ==> final(self).pos > old(self).pos,
            r matches Ok(m) ==> metodo_ok(m),
            ({
                let ts = old(self).tokens_spec();
                let j = old(self).pos_spec();
                j + 1 < ts.len() && ts[j + 1].tipo is Identificador ==> (corpo_simples(ts, j + 2) matches Some((v, l))
                    ==> r matches Ok(m) && m.nome == ts[j + 1].lexema && corpo_corresponde(m, v) && final(self).pos_spec() == l)
            }),
        decreases limite_interp(old(self).tokens_spec()), old(self).tokens_spec().len() - old(self).pos_spec(), 20nat,
    {
        broadcast use grupo_gramatica;

        self.avancar();  // 'metodo'
        let nome_m = self.consumir_nome(K013, "esperava o nome do método", "nome do método aqui")?;
        let params = self.lista_parametros()?;
        let corpo = self.corpo_funcao()?;
        Ok(MetodoDef { nome: nome_m.lexema, params, corpo })
    }

    #[verifier::rlimit(60)]
    #[verifier::spinoff_prover]
    fn lista_parametros(&mut self) -> (r: Result<Vec<Parametro>, Diagnostico>)
        requires
            old(self).bem_formado(),
        ensures
            r matches Err(d) ==> eh_codigo_conhecido(d.codigo@),
            mantem(*old(self), *final(self)),
            r is Ok ==> final(self).pos > old(self).pos,
            r matches Ok(ps) ==> forall|i: int| 0 <= i < ps@.len() ==> param_ok(#[trigger] ps@[i]),
            r matches Ok(ps) ==> parametros_validos(ps@),
            params_simples(old(self).tokens_spec(), old(self).pos_spec()) matches Some((ns, k)) ==> r matches Ok(ps)
                && params_simples_de(ps@, ns) && final(self).pos_spec() == k,
            params_invalidos_em(old(self).tokens_spec(), old(self).pos_spec()) ==> (r matches Err(d) && d.codigo@
                == formato_codigo(4)),
        decreases limite_interp(old(self).tokens_spec()), old(self).tokens_spec().len() - old(self).pos_spec(), 20nat,
    {
        proof {
            def_params_simples(self.tokens_spec(), self.pos_spec());
        }
        broadcast use grupo_gramatica;

        let ghost ts = self.tokens_spec();
        let ghost alvo = params_simples(ts, self.pos_spec());
        let ghost rej = params_invalidos_em(ts, self.pos_spec());
        let ghost mut sep: int = self.pos_spec();
        let ghost mut vs: Seq<ParamV> = Seq::empty();
        self.consumir(
            &TipoToken::ParenEsq,
            K004,
            "esperava '(' para a lista de parâmetros",
            "abra os parênteses aqui",
        )?;
        let mut params: Vec<Parametro> = Vec::new();
        let mut viu_padrao = false;
        if !self.verificar(&TipoToken::ParenDir) {
            loop
                invariant_except_break
                    forall|i: int| 0 <= i < params@.len() ==> !(#[trigger] params@[i]).variadico,
                    viu_padrao == exists|i: int| 0 <= i < params@.len() && (#[trigger] params@[i]).padrao is Some,
                    alvo is Some ==> params_de(ts, sep, vs, viu_padrao) == alvo && self.pos_spec() == sep + 1
                        && params_simples_de(params@, vs),
                    rej ==> params_invalidos(ts, sep, viu_padrao) && self.pos_spec() == sep + 1,
                invariant
                    rej == params_invalidos_em(old(self).tokens_spec(), old(self).pos_spec()),
                    mantem(*old(self), *self),
                    self.pos > old(self).pos,
                    forall|i: int| 0 <= i < params@.len() ==> param_ok(#[trigger] params@[i]),
                    parametros_validos(params@),
                    ts == self.tokens_spec(),
                    alvo == params_simples(old(self).tokens_spec(), old(self).pos_spec()),
                ensures
                    alvo matches Some((ns, k)) ==> params_simples_de(params@, ns) && k == self.pos_spec() + 1
                        && ts[self.pos_spec()].tipo is ParenDir,
                    !rej,
                decreases self.tokens@.len() - self.pos,
            {
                proof {
                    def_expr_ate(ts, sep + 3);
                    if alvo is Some {
                        lema_params_de(ts, sep, vs, viu_padrao);
                    }
                    if rej {
                        lema_params_invalidos(ts, sep, viu_padrao);
                    }
                }
                // '...' antes do nome marca parâmetro variádico (coleta o resto)
                let variadico = self.casar(&TipoToken::Reticencias);
                let p = self.consumir_nome(
                    K004,
                    "esperava o nome de um parâmetro",
                    "nome do parâmetro aqui",
                )?;
                // valor padrão opcional: nome = expr
                let padrao = if !variadico && self.casar(&TipoToken::Igual) {
                    Some(self.expressao()?)
                } else {
                    None
                };
                if padrao.is_some() {
                    viu_padrao = true;
                } else if !variadico && viu_padrao {
                    let mut msg = texto("o parâmetro '");
                    msg.append(p.lexema.as_str());
                    juntar(&mut msg, "' (sem padrão) não pode vir depois de um com valor padrão");
                    return Err(
                        erro(K004, msg, p.span, "dê um valor padrão a ele ou mova-o para antes"),
                    );
                }
                if variadico && !self.verificar(&TipoToken::ParenDir) {
                    return Err(
                        erro(
                            K004,
                            texto("o parâmetro variádico (...) precisa ser o último"),
                            self.atual().span,
                            "nada pode vir depois dele",
                        ),
                    );
                }
                let ghost antes = params@;
                let ghost pv = ParamV {
                    nome: p.lexema,
                    padrao: if padrao is Some { Some(vista_expr(padrao->0)) } else { None },
                    variadico,
                };
                params.push(Parametro { nome: p.lexema, padrao, variadico });
                proof {
                    assert forall|i: int| 0 <= i < antes.len() implies params@[i] == antes[i] by {}
                    if viu_padrao && !variadico {
                        assert(padrao is Some);
                    }
                    assert forall|a: int, b: int|
                        0 <= a < b < params@.len() && (#[trigger] params@[a]).padrao is Some && !(
                        #[trigger] params@[b]).variadico implies params@[b].padrao is Some by {
                        if b < antes.len() {
                        } else {
                            assert(antes[a].padrao is Some);
                        }
                    }
                    let ultimo = params@.len() - 1;
                    if params@[ultimo].padrao is Some {
                        assert(viu_padrao);
                    } else if viu_padrao {
                        let w = choose|i: int| 0 <= i < antes.len() && (#[trigger] antes[i]).padrao is Some;
                        assert(params@[w] == antes[w]);
                    } else {
                        assert forall|i: int| 0 <= i < params@.len() implies !((#[trigger] params@[i]).padrao is Some) by {
                            if i < antes.len() {
                                assert(params@[i] == antes[i]);
                            }
                        }
                    }
                }
                proof {
                    vs = vs.push(pv);
                }
                let ghost virgula = self.pos_spec();
                if !self.casar(&TipoToken::Virgula) {
                    break;
                }
                proof {
                    sep = virgula;
                }
            }
        }
        self.consumir(
            &TipoToken::ParenDir,
            K004,
            "esperava ')' para fechar os parâmetros",
            "feche os parênteses aqui",
        )?;
        Ok(params)
    }

    /// Analisa o corpo de um laço, marcando o contexto para 'pare'/'continue'.
    fn corpo_laco(&mut self) -> (r: Result<Vec<Cmd>, Diagnostico>)
        requires
            old(self).bem_formado(),
            old(self).prof_laco < old(self).pos,
        ensures
            r matches Err(d) ==> eh_codigo_conhecido(d.codigo@),
            mantem(*old(self), *final(self)),
            r is Ok ==> final(self).pos > old(self).pos,
            r matches Ok(cs) ==> bloco_ok(cs@, true, old(self).em_funcao()),
            bloco_simples(old(self).tokens_spec(), old(self).pos_spec(), true, old(self).em_funcao()) matches Some((vs, k))
                ==> r matches Ok(cs) && correspondem(cs@, vs) && final(self).pos_spec() == k,
            erro_bloco(old(self).tokens_spec(), old(self).pos_spec(), true, old(self).em_funcao()) matches Some((c, s, p))
                ==> r matches Err(d) && d.codigo@ == c && d.span == s && final(self).pos_spec() == p,
        decreases limite_interp(old(self).tokens_spec()), old(self).tokens_spec().len() - old(self).pos_spec(), 21nat,
    {
        self.prof_laco = self.prof_laco + 1;
        let corpo = self.bloco();
        self.prof_laco = self.prof_laco - 1;
        corpo
    }

    /// Analisa o corpo de uma função. Marca o contexto para 'retorne' e zera o
    /// contexto de laço (um 'pare' dentro de função não afeta laços externos).
    fn corpo_funcao(&mut self) -> (r: Result<Vec<Cmd>, Diagnostico>)
        requires
            old(self).bem_formado(),
            old(self).prof_funcao < old(self).pos,
        ensures
            r matches Err(d) ==> eh_codigo_conhecido(d.codigo@),
            mantem(*old(self), *final(self)),
            r is Ok ==> final(self).pos > old(self).pos,
            r matches Ok(cs) ==> bloco_ok(cs@, false, true),
            bloco_simples(old(self).tokens_spec(), old(self).pos_spec(), false, true) matches Some((vs, k))
                ==> r matches Ok(cs) && correspondem(cs@, vs) && final(self).pos_spec() == k,
            erro_bloco(old(self).tokens_spec(), old(self).pos_spec(), false, true) matches Some((c, s, p))
                ==> r matches Err(d) && d.codigo@ == c && d.span == s && final(self).pos_spec() == p,
        decreases limite_interp(old(self).tokens_spec()), old(self).tokens_spec().len() - old(self).pos_spec(), 21nat,
    {
        let laco_salvo = self.prof_laco;
        self.prof_laco = 0;
        self.prof_funcao = self.prof_funcao + 1;
        let corpo = self.bloco();
        self.prof_funcao = self.prof_funcao - 1;
        self.prof_laco = laco_salvo;
        corpo
    }

    #[verifier::rlimit(100)]
    #[verifier::spinoff_prover]
    fn bloco(&mut self) -> (r: Result<Vec<Cmd>, Diagnostico>)
        requires
            old(self).bem_formado(),
        ensures
            r matches Err(d) ==> eh_codigo_conhecido(d.codigo@),
            mantem(*old(self), *final(self)),
            r is Ok ==> final(self).pos > old(self).pos,
            r matches Ok(cs) ==> bloco_ok(cs@, old(self).em_laco(), old(self).em_funcao()),
            bloco_simples(old(self).tokens_spec(), old(self).pos_spec(), old(self).em_laco(), old(self).em_funcao()) matches Some((vs, k))
                ==> r matches Ok(cs) && correspondem(cs@, vs) && final(self).pos_spec() == k,
            erro_bloco(old(self).tokens_spec(), old(self).pos_spec(), old(self).em_laco(), old(self).em_funcao()) matches Some((c, s, p))
                ==> r matches Err(d) && d.codigo@ == c && d.span == s && final(self).pos_spec() == p,
        decreases limite_interp(old(self).tokens_spec()), old(self).tokens_spec().len() - old(self).pos_spec(), 20nat,
    {
        let ghost alvo_erro = erro_bloco(self.tokens_spec(), self.pos_spec(), self.em_laco(), self.em_funcao());
        self.consumir(
            &TipoToken::ChaveEsq,
            K005,
            "esperava '{' para abrir o bloco",
            "abra o bloco com '{'",
        )?;
        let mut cmds: Vec<Cmd> = Vec::new();
        while !self.verificar(&TipoToken::ChaveDir) && !self.fim()
            invariant
                alvo_erro == erro_bloco(old(self).tokens_spec(), old(self).pos_spec(), old(self).em_laco(), old(self).em_funcao()),
                alvo_erro is Some ==> erro_seq(self.tokens_spec(), self.pos_spec(), old(self).em_laco(), old(self).em_funcao()) == alvo_erro,
                mantem(*old(self), *self),
                self.pos > old(self).pos,
                bloco_ok(cmds@, old(self).em_laco(), old(self).em_funcao()),
                bloco_simples(old(self).tokens_spec(), old(self).pos_spec(), old(self).em_laco(), old(self).em_funcao())
                    matches Some((vs, fim)) ==> {
                    &&& cmds_ate_chave(self.tokens@, self.pos as int, old(self).em_laco(), old(self).em_funcao())
                        matches Some((resto, l))
                    &&& l == fim
                    &&& vs == vs.take(cmds@.len() as int) + resto
                    &&& cmds@.len() <= vs.len()
                    &&& correspondem(cmds@, vs.take(cmds@.len() as int))
                },
            decreases self.tokens@.len() - self.pos,
        {
            let ghost p0 = self.pos;
            let ghost antes = cmds@;
            let c = self.declaracao()?;
            cmds.push(c);
            proof {
                let laco = old(self).em_laco();
                let funcao = old(self).em_funcao();
                if bloco_simples(old(self).tokens_spec(), old(self).pos_spec(), laco, funcao) is Some {
                    let vs = (bloco_simples(old(self).tokens_spec(), old(self).pos_spec(), laco, funcao)->0).0;
                    let resto_antes = (cmds_ate_chave(self.tokens@, p0 as int, laco, funcao)->0).0;
                    let resto = (cmds_ate_chave(self.tokens@, self.pos as int, laco, funcao)->0).0;
                    let n = antes.len() as int;
                    assert(resto_antes =~= seq![resto_antes[0]] + resto);
                    assert(vs[n] == resto_antes[0]);
                    assert(vs.take(n + 1) =~= vs.take(n).push(vs[n]));
                    assert(vs =~= vs.take(n + 1) + resto);
                    assert forall|k: int| 0 <= k < cmds@.len() implies corresponde(
                        #[trigger] cmds@[k],
                        vs.take(n + 1)[k],
                    ) by {
                        if k < n {
                            assert(cmds@[k] == antes[k]);
                        }
                    }
                }
            }
        }
        proof {
            let laco = old(self).em_laco();
            let funcao = old(self).em_funcao();
            if bloco_simples(old(self).tokens_spec(), old(self).pos_spec(), laco, funcao) is Some {
                let vs = (bloco_simples(old(self).tokens_spec(), old(self).pos_spec(), laco, funcao)->0).0;
                assert(vs.take(cmds@.len() as int) =~= vs);
            }
        }
        self.consumir(
            &TipoToken::ChaveDir,
            K005,
            "esperava '}' para fechar o bloco",
            "feche o bloco com '}'",
        )?;
        Ok(cmds)
    }

    // ---- Comandos ----
    #[verifier::rlimit(60)]
    #[verifier::spinoff_prover]
    fn comando(&mut self) -> (r: Result<Cmd, Diagnostico>)
        requires
            old(self).bem_formado(),
        ensures
            r matches Err(d) ==> eh_codigo_conhecido(d.codigo@),
            mantem(*old(self), *final(self)),
            r is Ok ==> final(self).pos > old(self).pos,
            r matches Ok(c) ==> cmd_ok(c, old(self).em_laco(), old(self).em_funcao()),
            ({
                let t = old(self).tokens_spec()[old(self).pos_spec()];
                &&& t.tipo is Se ==> (r matches Ok(c) ==> c is Se)
                &&& t.tipo is Escolha ==> (r matches Ok(c) ==> c is Escolha)
                &&& t.tipo is Enquanto ==> (r matches Ok(c) ==> c is Enquanto)
                &&& t.tipo is Para ==> (r matches Ok(c) ==> c is ParaNumerico || c is ParaCada)
                &&& t.tipo is Tente ==> (r matches Ok(c) ==> c is Tente)
                &&& t.tipo is Lance ==> (r matches Ok(c) ==> c is Lance)
                &&& t.tipo is Retorne ==> (r matches Ok(c) ==> c is Retorne)
                &&& t.tipo is Pare && old(self).em_laco() ==> r == Ok::<Cmd, Diagnostico>(Cmd::Pare(t.span))
                &&& t.tipo is Continue && old(self).em_laco() ==> r == Ok::<Cmd, Diagnostico>(
                    Cmd::Continue(t.span),
                )
                &&& (t.tipo is Pare || t.tipo is Continue) && !old(self).em_laco() ==> (r matches Err(
                    d,
                ) && d.codigo@ == formato_codigo(16) && d.span == t.span && final(self).pos_spec()
                    == old(self).pos_spec() + 1)
                &&& (t.tipo is Se || t.tipo is Enquanto) ==> (expr_ate(old(self).tokens_spec(), old(self).pos_spec()
                    + 1) matches Some((_, j)) ==> (erro_bloco(
                    old(self).tokens_spec(),
                    j,
                    old(self).em_laco() || t.tipo is Enquanto,
                    old(self).em_funcao(),
                ) matches Some((c, s, p)) ==> (r matches Err(d) && d.codigo@ == c && d.span == s && final(self).pos_spec()
                    == p)))
                &&& t.tipo is Retorne && !old(self).em_funcao() ==> (r matches Err(d) && d.codigo@
                    == formato_codigo(16) && d.span == t.span && final(self).pos_spec() == old(self).pos_spec()
                    + 1)
                &&& !comeca_comando(t.tipo) ==> (r matches Ok(c) ==> c is Expressao || c is AtribMulti)
            }),
            !(old(self).tipo_atual() is Var || old(self).tipo_atual() is Constante || (old(self).tipo_atual() is Funcao
                && old(self).pos_spec() + 1 < old(self).tokens_spec().len() && old(self).tokens_spec()[old(self).pos_spec()
                + 1].tipo is Identificador) || old(self).tipo_atual() is Classe || old(self).tipo_atual() is Importe) ==> (cmd_simples(
                old(self).tokens_spec(),
                old(self).pos_spec(),
                old(self).em_laco(),
                old(self).em_funcao(),
            ) matches Some((c, j)) ==> r matches Ok(x) && corresponde(x, c) && final(self).pos_spec() == j),
        decreases limite_interp(old(self).tokens_spec()), old(self).tokens_spec().len() - old(self).pos_spec(), 22nat,
    {
        broadcast use grupo_gramatica;

        proof {
            passo_cmd_simples(self.tokens_spec(), self.pos_spec(), self.em_laco(), self.em_funcao());
        }
        if self.verificar(&TipoToken::Se) {
            return self.cmd_se();
        }
        if self.verificar(&TipoToken::Escolha) {
            return self.cmd_escolha();
        }
        if self.verificar(&TipoToken::Enquanto) {
            return self.cmd_enquanto();
        }
        if self.verificar(&TipoToken::Para) {
            return self.cmd_para();
        }
        if self.verificar(&TipoToken::Tente) {
            return self.cmd_tente();
        }
        if self.verificar(&TipoToken::Lance) {
            return self.cmd_lance();
        }
        if self.verificar(&TipoToken::Retorne) {
            return self.cmd_retorne();
        }
        if self.verificar(&TipoToken::Pare) {
            let t = self.avancar();
            if self.prof_laco == 0 {
                return Err(
                    erro(
                        K016,
                        texto("'pare' só pode ser usado dentro de um laço"),
                        t.span,
                        "fora de um laço aqui",
                    ).com_ajuda(texto("'pare' interrompe um 'enquanto' ou 'para'")),
                );
            }
            return Ok(Cmd::Pare(t.span));
        }
        if self.verificar(&TipoToken::Continue) {
            let t = self.avancar();
            if self.prof_laco == 0 {
                return Err(
                    erro(
                        K016,
                        texto("'continue' só pode ser usado dentro de um laço"),
                        t.span,
                        "fora de um laço aqui",
                    ).com_ajuda(
                        texto("'continue' pula para a próxima volta de um 'enquanto' ou 'para'"),
                    ),
                );
            }
            return Ok(Cmd::Continue(t.span));
        }
        let e = self.expressao()?;
        // reatribuição múltipla: a, b = b, a
        if let Expr::Variavel(primeiro, span) = &e {
            if self.verificar(&TipoToken::Virgula) {
                let span = *span;
                let nomes = self.nomes_seguintes(
                    primeiro.clone(),
                    K022,
                    "na atribuição múltipla, os alvos devem ser nomes de variáveis",
                    "esperava um nome aqui",
                )?;
                self.consumir(
                    &TipoToken::Igual,
                    K022,
                    "esperava '=' na atribuição múltipla",
                    "ex.: a, b = b, a",
                )?;
                let valores = self.lista_valores()?;
                return Ok(Cmd::AtribMulti { nomes, valores, span });
            }
        }
        Ok(Cmd::Expressao(e))
    }

    #[verifier::rlimit(60)]
    #[verifier::spinoff_prover]
    fn cmd_se(&mut self) -> (r: Result<Cmd, Diagnostico>)
        requires
            old(self).bem_formado(),
            !old(self).no_fim(),
        ensures
            r matches Ok(c) ==> (c is Se),
            expr_simples(old(self).tokens_spec(), old(self).pos_spec() + 1, 14) matches Some((e, _)) ==> (r matches Ok(
                c,
            ) ==> c matches Cmd::Se { condicao, .. } && vista_expr(condicao) == e),
            r matches Err(d) ==> eh_codigo_conhecido(d.codigo@),
            mantem(*old(self), *final(self)),
            r is Ok ==> final(self).pos > old(self).pos,
            r matches Ok(c) ==> cmd_ok(c, old(self).em_laco(), old(self).em_funcao()),
            se_simples(old(self).tokens_spec(), old(self).pos_spec(), old(self).em_laco(), old(self).em_funcao()) matches Some((v, k))
                ==> r matches Ok(c) && corresponde(c, v) && final(self).pos_spec() == k,
            expr_ate(old(self).tokens_spec(), old(self).pos_spec() + 1) matches Some((_, j)) ==> (erro_bloco(
                old(self).tokens_spec(),
                j,
                old(self).em_laco(),
                old(self).em_funcao(),
            ) matches Some((c, s, p)) ==> (r matches Err(d) && d.codigo@ == c && d.span == s && final(self).pos_spec() == p)),
        decreases limite_interp(old(self).tokens_spec()), old(self).tokens_spec().len() - old(self).pos_spec(), 20nat,
    {
        proof {
            def_expr_ate(self.tokens_spec(), self.pos_spec() + 1);
        }
        proof {
            passo_se_simples(self.tokens_spec(), self.pos_spec(), self.em_laco(), self.em_funcao());
        }
        self.avancar();  // 'se' ou 'senaose'
        let condicao = self.expressao()?;
        let entao = self.bloco()?;
        let senao = if self.verificar(&TipoToken::SenaoSe) {
            // 'senaose' encadeia outro se (palavra única)
            let c = self.cmd_se()?;
            let mut v: Vec<Cmd> = Vec::new();
            v.push(c);
            Some(v)
        } else if self.casar(&TipoToken::Senao) {
            if self.verificar(&TipoToken::Se) {
                // 'senao se' (duas palavras) também é aceito
                let c = self.cmd_se()?;
                let mut v: Vec<Cmd> = Vec::new();
                v.push(c);
                Some(v)
            } else {
                Some(self.bloco()?)
            }
        } else {
            None
        };
        Ok(Cmd::Se { condicao, entao, senao })
    }

    #[verifier::rlimit(60)]
    #[verifier::spinoff_prover]
    fn cmd_escolha(&mut self) -> (r: Result<Cmd, Diagnostico>)
        requires
            old(self).bem_formado(),
            !old(self).no_fim(),
        ensures
            r matches Ok(c) ==> (c is Escolha),
            expr_simples(old(self).tokens_spec(), old(self).pos_spec() + 1, 14) matches Some((e, _)) ==> (r matches Ok(
                c,
            ) ==> c matches Cmd::Escolha { valor, .. } && vista_expr(valor) == e),
            r matches Err(d) ==> eh_codigo_conhecido(d.codigo@),
            mantem(*old(self), *final(self)),
            r is Ok ==> final(self).pos > old(self).pos,
            r matches Ok(c) ==> cmd_ok(c, old(self).em_laco(), old(self).em_funcao()),
            escolha_simples(old(self).tokens_spec(), old(self).pos_spec(), old(self).em_laco(), old(self).em_funcao()) matches Some((v, k))
                ==> r matches Ok(c) && corresponde(c, v) && final(self).pos_spec() == k,
        decreases limite_interp(old(self).tokens_spec()), old(self).tokens_spec().len() - old(self).pos_spec(), 20nat,
    {
        broadcast use grupo_gramatica;

        proof {
            passo_escolha_simples(self.tokens_spec(), self.pos_spec(), self.em_laco(), self.em_funcao());
        }
        let ghost ts = self.tokens_spec();
        let ghost i = self.pos_spec();
        let ghost laco = self.em_laco();
        let ghost fun = self.em_funcao();
        let ghost alvo = escolha_simples(ts, i, laco, fun);
        let ghost j0: int = expr_ate(ts, i + 1).unwrap().1;
        let ghost fim = ramos_de(ts, j0 + 1, sem_ramos(), laco, fun);
        let ghost mut acc = sem_ramos();
        proof {
            if alvo is Some {
                lema_escolha_simples(ts, i, laco, fun);
            }
        }
        self.avancar();  // 'escolha'
        let valor = self.expressao()?;
        self.consumir(
            &TipoToken::ChaveEsq,
            K021,
            "esperava '{' para abrir o corpo do 'escolha'",
            "abra o corpo com '{'",
        )?;
        let mut casos: Vec<CasoEscolha> = Vec::new();
        let mut padrao: Option<Vec<Cmd>> = None;
        assert(alvo is Some ==> self.pos_spec() == j0 + 1);
        while !self.verificar(&TipoToken::ChaveDir) && !self.fim()
            invariant
                mantem(*old(self), *self),
                self.pos > old(self).pos,
                forall|i: int|
                    0 <= i < casos@.len() ==> caso_ok(
                        #[trigger] casos@[i],
                        old(self).em_laco(),
                        old(self).em_funcao(),
                    ),
                padrao matches Some(p) ==> bloco_ok(p@, old(self).em_laco(), old(self).em_funcao()),
                ts == self.tokens_spec(),
                laco == self.em_laco(),
                fun == self.em_funcao(),
                alvo == escolha_simples(old(self).tokens_spec(), old(self).pos_spec(), old(self).em_laco(), old(self).em_funcao()),
                alvo is Some ==> fim is Some && ramos_de(ts, self.pos_spec(), acc, laco, fun) == fim && casos_correspondem(
                    casos@,
                    acc.casos,
                ) && match (padrao, acc.padrao) {
                    (None, None) => true,
                    (Some(p), Some(q)) => correspondem(p@, q),
                    _ => false,
                },
            decreases self.tokens@.len() - self.pos,
        {
            let ghost j = self.pos_spec();
            proof {
                if alvo is Some {
                    lema_ramos_passo(ts, j, acc, laco, fun);
                }
            }
            if self.casar(&TipoToken::Caso) {
                let valores = self.lista_valores()?;
                let corpo = self.bloco()?;
                let ghost antes = casos@;
                let ghost vc = CasoEscolha { valores, corpo };
                casos.push(CasoEscolha { valores, corpo });
                proof {
                    if alvo is Some {
                        let novo = ramo_simples(ts, j, acc, laco, fun).unwrap().0;
                        assert forall|k: int| 0 <= k < casos@.len() implies vistas_expr((#[trigger] casos@[k]).valores@)
                            == novo.casos[k].0 && correspondem(casos@[k].corpo@, novo.casos[k].1) by {
                            if k < antes.len() {
                                assert(casos@[k] == antes[k]);
                            }
                        }
                    }
                    acc = ramo_simples(ts, j, acc, laco, fun).unwrap().0;
                }
            } else if self.casar(&TipoToken::Padrao) {
                if padrao.is_some() {
                    return Err(
                        erro(
                            K021,
                            texto("só pode haver um 'padrao' no 'escolha'"),
                            self.atual().span,
                            "segundo 'padrao' aqui",
                        ),
                    );
                }
                padrao = Some(self.bloco()?);
                proof {
                    acc = ramo_simples(ts, j, acc, laco, fun).unwrap().0;
                }
            } else {
                return Err(
                    erro(
                        K021,
                        texto("dentro de 'escolha' só cabem 'caso' e 'padrao'"),
                        self.atual().span,
                        "não esperava isto aqui",
                    ).com_ajuda(texto("use 'caso valor { ... }' ou 'padrao { ... }'")),
                );
            }
        }
        proof {
            if alvo is Some {
                lema_ramos_fim(ts, self.pos_spec(), acc, laco, fun);
            }
        }
        self.consumir(
            &TipoToken::ChaveDir,
            K021,
            "esperava '}' para fechar o 'escolha'",
            "feche com '}'",
        )?;
        Ok(Cmd::Escolha { valor, casos, padrao })
    }

    /// Lista de expressões separadas por vírgula: os valores de um `caso` e o
    /// lado direito de um desempacotamento.
    fn lista_valores(&mut self) -> (r: Result<Vec<Expr>, Diagnostico>)
        requires
            old(self).bem_formado(),
        ensures
            r matches Err(d) ==> eh_codigo_conhecido(d.codigo@),
            mantem(*old(self), *final(self)),
            r is Ok ==> final(self).pos > old(self).pos,
            r matches Ok(v) ==> forall|i: int| 0 <= i < v@.len() ==> expr_ok(#[trigger] v@[i]),
            valores_de(old(self).tokens_spec(), old(self).pos_spec(), Seq::empty()) matches Some((vs, k)) ==> r matches Ok(
                v,
            ) && vistas_expr(v@) == vs && final(self).pos_spec() == k,
        decreases limite_interp(old(self).tokens_spec()), old(self).tokens_spec().len() - old(self).pos_spec(), 17nat,
    {
        proof {
            def_expr_ate(self.tokens_spec(), self.pos_spec());
        }
        proof {
            passo_valores_de(self.tokens_spec(), self.pos_spec(), Seq::empty());
        }
        broadcast use grupo_gramatica;

        let ghost ts = self.tokens_spec();
        let ghost alvo = valores_de(ts, self.pos_spec(), Seq::empty());
        let ghost mut ini: int = self.pos_spec();
        let ghost mut ant: Seq<ExprV> = Seq::empty();
        let primeiro = self.expressao()?;
        let mut valores: Vec<Expr> = Vec::new();
        valores.push(primeiro);
        proof {
            assert(vistas_expr(valores@) =~= ant.push(vista_expr(primeiro)));
        }
        while self.casar(&TipoToken::Virgula)
            invariant
                mantem(*old(self), *self),
                self.pos > old(self).pos,
                forall|i: int| 0 <= i < valores@.len() ==> expr_ok(#[trigger] valores@[i]),
                ts == self.tokens_spec(),
                alvo == valores_de(old(self).tokens_spec(), old(self).pos_spec(), Seq::empty()),
                alvo is Some ==> valores_de(ts, ini, ant) == alvo && (expr_ate(ts, ini) matches Some((e, k)) && k
                    == self.pos_spec() && ini < k && vistas_expr(valores@) == ant.push(e)),
            decreases self.tokens@.len() - self.pos,
        {
            proof {
                def_expr_ate(ts, ini);
                passo_valores_de(ts, ini, ant);
                ant = ant.push(expr_ate(ts, ini).unwrap().0);
                ini = self.pos_spec();
                def_expr_ate(ts, ini);
                passo_valores_de(ts, ini, ant);
            }
            let e = self.expressao()?;
            let ghost antes = valores@;
            valores.push(e);
            proof {
                broadcast use grupo_gramatica;
                assert(vistas_expr(valores@) =~= vistas_expr(antes).push(vista_expr(e)));
            }
        }
        proof {
            def_expr_ate(ts, ini);
            passo_valores_de(ts, ini, ant);
        }
        Ok(valores)
    }

    fn cmd_enquanto(&mut self) -> (r: Result<Cmd, Diagnostico>)
        requires
            old(self).bem_formado(),
            !old(self).no_fim(),
        ensures
            r matches Ok(c) ==> (c is Enquanto),
            expr_simples(old(self).tokens_spec(), old(self).pos_spec() + 1, 14) matches Some((e, _)) ==> (r matches Ok(
                c,
            ) ==> c matches Cmd::Enquanto { condicao, .. } && vista_expr(condicao) == e),
            r matches Err(d) ==> eh_codigo_conhecido(d.codigo@),
            mantem(*old(self), *final(self)),
            r is Ok ==> final(self).pos > old(self).pos,
            r matches Ok(c) ==> cmd_ok(c, old(self).em_laco(), old(self).em_funcao()),
            enquanto_simples(old(self).tokens_spec(), old(self).pos_spec(), old(self).em_funcao()) matches Some((v, k))
                ==> r matches Ok(c) && corresponde(c, v) && final(self).pos_spec() == k,
            expr_ate(old(self).tokens_spec(), old(self).pos_spec() + 1) matches Some((_, j)) ==> (erro_bloco(
                old(self).tokens_spec(),
                j,
                true,
                old(self).em_funcao(),
            ) matches Some((c, s, p)) ==> (r matches Err(d) && d.codigo@ == c && d.span == s && final(self).pos_spec() == p)),
        decreases limite_interp(old(self).tokens_spec()), old(self).tokens_spec().len() - old(self).pos_spec(), 20nat,
    {
        broadcast use grupo_gramatica;

        proof {
            passo_enquanto_simples(self.tokens_spec(), self.pos_spec(), self.em_funcao());
        }
        broadcast use grupo_gramatica;

        self.avancar();  // 'enquanto'
        let condicao = self.expressao()?;
        let corpo = self.corpo_laco()?;
        Ok(Cmd::Enquanto { condicao, corpo })
    }

    #[verifier::rlimit(100)]
    #[verifier::spinoff_prover]
    fn cmd_para(&mut self) -> (r: Result<Cmd, Diagnostico>)
        requires
            old(self).bem_formado(),
            !old(self).no_fim(),
        ensures
            r matches Ok(c) ==> (c is ParaNumerico || c is ParaCada),
            ({
                let ts = old(self).tokens_spec();
                let i = old(self).pos_spec();
                &&& ts[i + 1].tipo is Cada ==> (r matches Ok(c) ==> c matches Cmd::ParaCada {
                    variavel,
                    iteravel,
                    ..
                } && variavel == ts[i + 2].lexema && (expr_simples(ts, i + 4, 14) matches Some((e, _))
                    ==> vista_expr(iteravel) == e))
                &&& !(ts[i + 1].tipo is Cada) ==> (r matches Ok(c) ==> c matches Cmd::ParaNumerico {
                    variavel,
                    de,
                    ate,
                    ..
                } && variavel == ts[i + 1].lexema && (expr_simples(ts, i + 3, 14) matches Some((d, j))
                    ==> vista_expr(de) == d && (expr_simples(ts, j + 1, 14) matches Some((a, _))
                    ==> vista_expr(ate) == a)))
            }),
            r matches Err(d) ==> eh_codigo_conhecido(d.codigo@),
            mantem(*old(self), *final(self)),
            r is Ok ==> final(self).pos > old(self).pos,
            r matches Ok(c) ==> cmd_ok(c, old(self).em_laco(), old(self).em_funcao()),
            para_simples(old(self).tokens_spec(), old(self).pos_spec(), old(self).em_funcao()) matches Some((v, k))
                ==> r matches Ok(c) && corresponde(c, v) && final(self).pos_spec() == k,
        decreases limite_interp(old(self).tokens_spec()), old(self).tokens_spec().len() - old(self).pos_spec(), 20nat,
    {
        self.avancar();  // 'para'
        if self.casar(&TipoToken::Cada) {
            self.para_cada()
        } else {
            self.para_numerico()
        }
    }

    #[verifier::rlimit(30)]
    #[verifier::spinoff_prover]
    /// `para cada IDENT em EXPR { }`, depois de `para cada`.
    fn para_cada(&mut self) -> (r: Result<Cmd, Diagnostico>)
        requires
            old(self).bem_formado(),
            old(self).pos_spec() >= 2,
        ensures
            r matches Ok(c) ==> c matches Cmd::ParaCada { variavel, iteravel, .. } && variavel == old(
                self,
            ).tokens_spec()[old(self).pos_spec()].lexema && (expr_simples(
                old(self).tokens_spec(),
                old(self).pos_spec() + 2,
                14,
            ) matches Some((e, _)) ==> vista_expr(iteravel) == e),
            r matches Err(d) ==> eh_codigo_conhecido(d.codigo@),
            mantem(*old(self), *final(self)),
            r is Ok ==> final(self).pos > old(self).pos,
            r matches Ok(c) ==> cmd_ok(c, old(self).em_laco(), old(self).em_funcao()),
            para_cada_simples(old(self).tokens_spec(), old(self).pos_spec() - 2, old(self).em_funcao()) matches Some(
                (v, k),
            ) ==> r matches Ok(c) && corresponde(c, v) && final(self).pos_spec() == k,
        decreases limite_interp(old(self).tokens_spec()), old(self).tokens_spec().len() - old(self).pos_spec(), 20nat,
    {
        broadcast use grupo_gramatica;

        proof {
            passo_para_cada_simples(self.tokens_spec(), self.pos_spec(), self.em_funcao());
        }
        let var = self.consumir_nome(
            K006,
            "esperava o nome da variável do laço",
            "nome da variável aqui",
        )?;
        self.consumir(
            &TipoToken::Em,
            K006,
            "esperava 'em' no laço 'para cada'",
            "use 'para cada X em lista'",
        )?;
        let iteravel = self.expressao()?;
        let corpo = self.corpo_laco()?;
        Ok(Cmd::ParaCada { variavel: var.lexema, iteravel, corpo })
    }

    #[verifier::rlimit(30)]
    #[verifier::spinoff_prover]
    /// `para IDENT de EXPR ate EXPR [passo EXPR] { }`, depois de `para`.
    fn para_numerico(&mut self) -> (r: Result<Cmd, Diagnostico>)
        requires
            old(self).bem_formado(),
            old(self).pos_spec() >= 1,
        ensures
            r matches Ok(c) ==> c matches Cmd::ParaNumerico { variavel, de, ate, .. } && variavel == old(
                self,
            ).tokens_spec()[old(self).pos_spec()].lexema && (expr_simples(
                old(self).tokens_spec(),
                old(self).pos_spec() + 2,
                14,
            ) matches Some((d, j)) ==> vista_expr(de) == d && (expr_simples(old(self).tokens_spec(), j + 1, 14)
                matches Some((a, _)) ==> vista_expr(ate) == a)),
            r matches Err(d) ==> eh_codigo_conhecido(d.codigo@),
            mantem(*old(self), *final(self)),
            r is Ok ==> final(self).pos > old(self).pos,
            r matches Ok(c) ==> cmd_ok(c, old(self).em_laco(), old(self).em_funcao()),
            para_num_simples(old(self).tokens_spec(), old(self).pos_spec() - 1, old(self).em_funcao()) matches Some(
                (v, k),
            ) ==> r matches Ok(c) && corresponde(c, v) && final(self).pos_spec() == k,
        decreases limite_interp(old(self).tokens_spec()), old(self).tokens_spec().len() - old(self).pos_spec(), 20nat,
    {
        broadcast use grupo_gramatica;

        proof {
            passo_para_num_simples(self.tokens_spec(), self.pos_spec(), self.em_funcao());
        }
        broadcast use grupo_gramatica;

        let var = self.consumir_nome(
            K006,
            "esperava o nome da variável do laço",
            "nome da variável aqui",
        )?;
        let (de, ate, passo) = self.limites()?;
        let corpo = self.corpo_laco()?;
        Ok(Cmd::ParaNumerico { variavel: var.lexema, de, ate, passo, corpo })
    }

    /// `de EXPR ate EXPR [passo EXPR]` de um `para` numérico.
    fn limites(&mut self) -> (r: Result<(Expr, Expr, Option<Expr>), Diagnostico>)
        requires
            old(self).bem_formado(),
        ensures
            r matches Err(d) ==> eh_codigo_conhecido(d.codigo@),
            mantem(*old(self), *final(self)),
            r is Ok ==> final(self).pos > old(self).pos,
            r matches Ok((d, a, p)) ==> expr_ok(d) && expr_ok(a) && match p {
                Some(x) => expr_ok(x),
                None => true,
            },
            expr_simples(old(self).tokens_spec(), old(self).pos_spec() + 1, 14) matches Some((dv, j)) ==> (r matches Ok(
                (d, a, _),
            ) ==> vista_expr(d) == dv && (expr_simples(old(self).tokens_spec(), j + 1, 14) matches Some((av, _))
                ==> vista_expr(a) == av)),
            limites_de(old(self).tokens_spec(), old(self).pos_spec()) matches Some((dv, av, pv, l)) ==> r matches Ok(
                (d, a, p),
            ) && vista_expr(d) == dv && vista_expr(a) == av && corresponde_opcional(p, pv) && final(self).pos_spec()
                == l,
        decreases limite_interp(old(self).tokens_spec()), old(self).tokens_spec().len() - old(self).pos_spec(), 19nat,
    {
        broadcast use grupo_gramatica;

        self.consumir(
            &TipoToken::De,
            K006,
            "esperava 'de' no laço 'para'",
            "use 'para X de A ate B'",
        )?;
        let de = self.expressao()?;
        self.consumir(
            &TipoToken::Ate,
            K006,
            "esperava 'ate' no laço 'para'",
            "use 'para X de A ate B'",
        )?;
        let ate = self.expressao()?;
        let passo = if self.casar(&TipoToken::Passo) {
            Some(self.expressao()?)
        } else {
            None
        };
        Ok((de, ate, passo))
    }

    #[verifier::rlimit(40)]
    #[verifier::spinoff_prover]
    fn cmd_tente(&mut self) -> (r: Result<Cmd, Diagnostico>)
        requires
            old(self).bem_formado(),
            !old(self).no_fim(),
        ensures
            r matches Ok(c) ==> (c is Tente),
            r matches Err(d) ==> eh_codigo_conhecido(d.codigo@),
            mantem(*old(self), *final(self)),
            r is Ok ==> final(self).pos > old(self).pos,
            r matches Ok(c) ==> cmd_ok(c, old(self).em_laco(), old(self).em_funcao()),
            tente_simples(old(self).tokens_spec(), old(self).pos_spec(), old(self).em_laco(), old(self).em_funcao()) matches Some((v, k))
                ==> r matches Ok(c) && corresponde(c, v) && final(self).pos_spec() == k,
        decreases limite_interp(old(self).tokens_spec()), old(self).tokens_spec().len() - old(self).pos_spec(), 20nat,
    {
        let ghost ts = self.tokens_spec();
        let ghost i = self.pos_spec();
        let ghost laco = self.em_laco();
        let ghost fun = self.em_funcao();
        let ghost alvo = tente_simples(ts, i, laco, fun);
        let ghost b1 = bloco_simples(ts, i + 1, laco, fun);
        proof {
            if alvo is Some {
                lema_tente_simples(ts, i, laco, fun);
            }
        }
        self.avancar();  // 'tente'
        let corpo = self.bloco()?;
        let ghost j = self.pos_spec();
        let ghost cap = captura_simples(ts, j, laco, fun);
        let (erro_tok, captura, finalmente) = self.captura_tente()?;
        let c = Cmd::Tente { corpo, erro_nome: erro_tok.lexema, captura, finalmente };
        proof {
            if alvo is Some {
                let (n, vc, vf, k) = cap.unwrap();
                lema_corresponde_tente(c, cmds_bloco(b1), n, vc, vf);
            }
        }
        Ok(c)
    }

    /// O `capture (nome) { ... }` e o `finalmente { ... }` opcional de um `tente`.
    #[verifier::rlimit(100)]
    #[verifier::spinoff_prover]
    fn captura_tente(&mut self) -> (r: Result<(Token, Vec<Cmd>, Option<Vec<Cmd>>), Diagnostico>)
        requires
            old(self).bem_formado(),
        ensures
            r matches Err(d) ==> eh_codigo_conhecido(d.codigo@),
            mantem(*old(self), *final(self)),
            r is Ok ==> final(self).pos > old(self).pos,
            r matches Ok((_, c, f)) ==> bloco_ok(c@, old(self).em_laco(), old(self).em_funcao()) && (f matches Some(x)
                ==> bloco_ok(x@, old(self).em_laco(), old(self).em_funcao())),
            captura_simples(old(self).tokens_spec(), old(self).pos_spec(), old(self).em_laco(), old(self).em_funcao()) matches Some(
                (n, vc, vf, k),
            ) ==> r matches Ok((t, c, f)) && t.lexema == n && correspondem(c@, vc) && match (f, vf) {
                (None, None) => true,
                (Some(x), Some(y)) => correspondem(x@, y),
                _ => false,
            } && final(self).pos_spec() == k,
        decreases limite_interp(old(self).tokens_spec()), old(self).tokens_spec().len() - old(self).pos_spec(), 19nat,
    {
        let ghost ts = self.tokens_spec();
        let ghost j = self.pos_spec();
        let ghost laco = self.em_laco();
        let ghost fun = self.em_funcao();
        proof {
            if captura_simples(ts, j, laco, fun) is Some {
                lema_captura_simples(ts, j, laco, fun);
            }
        }
        self.consumir(
            &TipoToken::Capture,
            K015,
            "esperava 'capture' após o bloco 'tente'",
            "todo 'tente' precisa de um 'capture (erro) { ... }'",
        )?;
        self.consumir(
            &TipoToken::ParenEsq,
            K015,
            "esperava '(' após 'capture'",
            "use 'capture (erro) { ... }'",
        )?;
        let erro_tok = self.consumir_nome(
            K015,
            "esperava o nome da variável de erro",
            "dê um nome ao erro capturado, ex.: 'erro'",
        )?;
        self.consumir(
            &TipoToken::ParenDir,
            K015,
            "esperava ')' após o nome do erro",
            "feche os parênteses aqui",
        )?;
        let captura = self.bloco()?;
        let finalmente = if self.casar(&TipoToken::Finalmente) {
            Some(self.bloco()?)
        } else {
            None
        };
        Ok((erro_tok, captura, finalmente))
    }

    fn cmd_lance(&mut self) -> (r: Result<Cmd, Diagnostico>)
        requires
            old(self).bem_formado(),
            !old(self).no_fim(),
        ensures
            r matches Ok(c) ==> (c is Lance),
            expr_simples(old(self).tokens_spec(), old(self).pos_spec() + 1, 14) matches Some((e, j)) ==> r
                matches Ok(Cmd::Lance(x, sp)) && vista_expr(x) == e && sp == old(self).tokens_spec()[old(
                self,
            ).pos_spec()].span && final(self).pos_spec() == j,
            r matches Err(d) ==> eh_codigo_conhecido(d.codigo@),
            mantem(*old(self), *final(self)),
            r is Ok ==> final(self).pos > old(self).pos,
            r matches Ok(c) ==> cmd_ok(c, old(self).em_laco(), old(self).em_funcao()),
            lance_simples(old(self).tokens_spec(), old(self).pos_spec()) matches Some((v, k))
                ==> r matches Ok(c) && corresponde(c, v) && final(self).pos_spec() == k,
        decreases limite_interp(old(self).tokens_spec()), old(self).tokens_spec().len() - old(self).pos_spec(), 20nat,
    {
        broadcast use grupo_gramatica;
        let t = self.avancar();  // 'lance'
        let expr = self.expressao()?;
        Ok(Cmd::Lance(expr, t.span))
    }

    fn cmd_retorne(&mut self) -> (r: Result<Cmd, Diagnostico>)
        requires
            old(self).bem_formado(),
            !old(self).no_fim(),
        ensures
            r matches Ok(c) ==> (c is Retorne),
            ({
                let ts = old(self).tokens_spec();
                let i = old(self).pos_spec();
                let fim_do_bloco = ts[i + 1].tipo is ChaveDir || ts[i + 1].tipo is FimDeArquivo;
                &&& !old(self).em_funcao() ==> (r matches Err(d) && d.codigo@ == formato_codigo(16)
                    && d.span == ts[i].span && final(self).pos_spec() == i + 1)
                &&& old(self).em_funcao() && fim_do_bloco ==> r == Ok::<Cmd, Diagnostico>(
                    Cmd::Retorne(None, ts[i].span),
                ) && final(self).pos_spec() == i + 1
                &&& old(self).em_funcao() && !fim_do_bloco ==> (expr_simples(ts, i + 1, 14) matches Some((e, j))
                    ==> r matches Ok(Cmd::Retorne(Some(x), sp)) && vista_expr(x) == e && sp == ts[i].span
                    && final(self).pos_spec() == j)
            }),
            r matches Err(d) ==> eh_codigo_conhecido(d.codigo@),
            mantem(*old(self), *final(self)),
            r is Ok ==> final(self).pos > old(self).pos,
            r matches Ok(c) ==> cmd_ok(c, old(self).em_laco(), old(self).em_funcao()),
            retorne_simples(old(self).tokens_spec(), old(self).pos_spec(), old(self).em_funcao()) matches Some((v, k))
                ==> r matches Ok(c) && corresponde(c, v) && final(self).pos_spec() == k,
        decreases limite_interp(old(self).tokens_spec()), old(self).tokens_spec().len() - old(self).pos_spec(), 20nat,
    {
        broadcast use grupo_gramatica;

        let t = self.avancar();  // 'retorne'
        if self.prof_funcao == 0 {
            return Err(
                erro(
                    K016,
                    texto("'retorne' só pode ser usado dentro de uma função"),
                    t.span,
                    "fora de uma função aqui",
                ),
            );
        }
        // Sem valor se o próximo token fecha o bloco ou termina o arquivo.
        let valor = if self.verificar(&TipoToken::ChaveDir) || self.fim() {
            None
        } else {
            Some(self.expressao()?)
        };
        Ok(Cmd::Retorne(valor, t.span))
    }

    // ---- Expressões (precedência crescente) ----
    fn expressao(&mut self) -> (r: Result<Expr, Diagnostico>)
        requires
            old(self).bem_formado(),
        ensures
            r matches Err(d) ==> eh_codigo_conhecido(d.codigo@),
            mantem(*old(self), *final(self)),
            r is Ok ==> final(self).pos > old(self).pos,
            expr_res_ok(r),
            reconhece(*old(self), *final(self), r, 14),
            sem_expressao_em(*old(self), *final(self), r),
        decreases limite_interp(old(self).tokens_spec()), old(self).tokens_spec().len() - old(self).pos_spec(), 16nat,
    {
        self.atribuicao()
    }

    #[verifier::rlimit(30)]
    #[verifier::spinoff_prover]
    fn atribuicao(&mut self) -> (r: Result<Expr, Diagnostico>)
        requires
            old(self).bem_formado(),
        ensures
            r matches Err(d) ==> eh_codigo_conhecido(d.codigo@),
            mantem(*old(self), *final(self)),
            r is Ok ==> final(self).pos > old(self).pos,
            expr_res_ok(r),
            reconhece(*old(self), *final(self), r, 14),
            sem_expressao_em(*old(self), *final(self), r),
            ({
                let ts = old(self).tokens_spec();
                let i = old(self).pos_spec();
                expr_simples(ts, i, 13) matches Some((e, j)) ==> (i < j && j < ts.len() && (ts[j].tipo is Igual
                    || op_composto_de(ts[j].tipo) is Some) && expr_simples(ts, j + 1, 14) is Some && !eh_alvo(e) ==> (
                r matches Err(d) && d.codigo@ == formato_codigo(7) && d.span == ts[j].span))
            }),
        decreases limite_interp(old(self).tokens_spec()), old(self).tokens_spec().len() - old(self).pos_spec(), 15nat,
    {
        let ghost ts = self.tokens_spec();
        let ghost i = self.pos_spec();
        let esq = self.ternario()?;
        let ghost j = self.pos_spec();
        assert(expr_simples(ts, i, 14) == match expr_simples(ts, i, 13) {
            Some((e, k)) => if i < k && k < ts.len() { atribuicao_de(ts, k, e) } else { None },
            None => None,
        });
        assert(expr_simples(ts, i, 13) matches Some((e, k)) ==> i < k && k < ts.len() ==> e == vista_expr(esq) && k == j);

        // atribuição simples: alvo = valor
        if self.verificar(&TipoToken::Igual) {
            let igual = self.avancar();
            let valor = self.atribuicao()?;
            assert(j < ts.len() ==> atribuicao_de(ts, j, vista_expr(esq)) == match expr_simples(ts, j + 1, 14) {
                Some((v, k)) => match atribuido(vista_expr(esq), v) {
                    Some(a) => Some((a, k)),
                    None => None,
                },
                None => None,
            });
            return montar_atribuicao(esq, valor, igual.span);
        }
        // atribuição composta: alvo OP= valor  ->  alvo = alvo OP valor
        if let Some(op) = self.op_composto() {
            let tok = self.avancar();
            let direita = self.atribuicao()?;
            let span = unir_span(&esq.span(), &direita.span());
            let copia = esq.clone();
            let combinado = Expr::Binaria {
                op,
                esq: Box::new(copia),
                dir: Box::new(direita),
                span,
            };
            assert(vista_expr(combinado) == ExprV::Binaria(
                op,
                Box::new(vista_expr(esq)),
                Box::new(vista_expr(direita)),
                unir_span_spec(span_vista(vista_expr(esq)), span_vista(vista_expr(direita))),
            ));
            assert(atribuicao_de(ts, j, vista_expr(esq)) == match expr_simples(ts, j + 1, 14) {
                Some((v, k)) => match atribuido(
                    vista_expr(esq),
                    ExprV::Binaria(op, Box::new(vista_expr(esq)), Box::new(v), unir_span_spec(span_vista(vista_expr(esq)), span_vista(v))),
                ) {
                    Some(a) => Some((a, k)),
                    None => None,
                },
                None => None,
            });
            return montar_atribuicao(esq, combinado, tok.span);
        }
        assert(j < ts.len() ==> atribuicao_de(ts, j, vista_expr(esq)) == Some((vista_expr(esq), j)));
        Ok(esq)
    }

    /// Operador de uma atribuição composta (`+=`, `-=`, ...), se houver.
    fn op_composto(&self) -> (r: Option<OpBinaria>)
        requires
            self.bem_formado(),
        ensures
            r is Some ==> !self.no_fim(),
            r == op_composto_de(self.tipo_atual()),
    {
        match self.atual().tipo {
            TipoToken::MaisIgual => Some(OpBinaria::Soma),
            TipoToken::MenosIgual => Some(OpBinaria::Subtracao),
            TipoToken::EstrelaIgual => Some(OpBinaria::Multiplicacao),
            TipoToken::BarraIgual => Some(OpBinaria::Divisao),
            TipoToken::PorcentoIgual => Some(OpBinaria::Resto),
            _ => None,
        }
    }

    /// Expressão condicional: `condicao ? entao : senao`.
    fn ternario(&mut self) -> (r: Result<Expr, Diagnostico>)
        requires
            old(self).bem_formado(),
        ensures
            r matches Err(d) ==> eh_codigo_conhecido(d.codigo@),
            mantem(*old(self), *final(self)),
            r is Ok ==> final(self).pos > old(self).pos,
            expr_res_ok(r),
            reconhece(*old(self), *final(self), r, 13),
            sem_expressao_em(*old(self), *final(self), r),
        decreases limite_interp(old(self).tokens_spec()), old(self).tokens_spec().len() - old(self).pos_spec(), 14nat,
    {
        let condicao = self.ou_logico()?;
        if self.casar(&TipoToken::Interrogacao) {
            let entao = self.ternario()?;
            self.consumir(
                &TipoToken::DoisPontos,
                K019,
                "esperava ':' no operador condicional",
                "use 'condicao ? valorSeVerdadeiro : valorSeFalso'",
            )?;
            let senao = self.ternario()?;
            let span = unir_span(&condicao.span(), &senao.span());
            return Ok(
                Expr::Ternario {
                    condicao: Box::new(condicao),
                    entao: Box::new(entao),
                    senao: Box::new(senao),
                    span,
                },
            );
        }
        Ok(condicao)
    }

    fn ou_logico(&mut self) -> (r: Result<Expr, Diagnostico>)
        requires
            old(self).bem_formado(),
        ensures
            r matches Err(d) ==> eh_codigo_conhecido(d.codigo@),
            mantem(*old(self), *final(self)),
            r is Ok ==> final(self).pos > old(self).pos,
            expr_res_ok(r),
            reconhece(*old(self), *final(self), r, 12),
            sem_expressao_em(*old(self), *final(self), r),
        decreases limite_interp(old(self).tokens_spec()), old(self).tokens_spec().len() - old(self).pos_spec(), 13nat,
    {
        let mut esq = self.e_logico()?;
        while self.casar(&TipoToken::Ou)
            invariant
                !sem_expressao(old(self).tokens_spec()[old(self).pos_spec()].tipo),
                mantem(*old(self), *self),
                self.pos > old(self).pos,
                expr_ok(esq),
                expr_simples(old(self).tokens_spec(), old(self).pos_spec(), 12) matches Some(res) ==> cadeia(
                    self.tokens@,
                    12,
                    vista_expr(esq),
                    self.pos as int,
                ) == Some(res),
            decreases self.tokens@.len() - self.pos,
        {
            let dir = self.e_logico()?;
            let span = unir_span(&esq.span(), &dir.span());
            esq = Expr::Logica { op: OpLogica::Ou, esq: Box::new(esq), dir: Box::new(dir), span };
        }
        Ok(esq)
    }

    fn e_logico(&mut self) -> (r: Result<Expr, Diagnostico>)
        requires
            old(self).bem_formado(),
        ensures
            r matches Err(d) ==> eh_codigo_conhecido(d.codigo@),
            mantem(*old(self), *final(self)),
            r is Ok ==> final(self).pos > old(self).pos,
            expr_res_ok(r),
            reconhece(*old(self), *final(self), r, 11),
            sem_expressao_em(*old(self), *final(self), r),
        decreases limite_interp(old(self).tokens_spec()), old(self).tokens_spec().len() - old(self).pos_spec(), 12nat,
    {
        let mut esq = self.ou_bit()?;
        while self.casar(&TipoToken::E)
            invariant
                !sem_expressao(old(self).tokens_spec()[old(self).pos_spec()].tipo),
                mantem(*old(self), *self),
                self.pos > old(self).pos,
                expr_ok(esq),
                expr_simples(old(self).tokens_spec(), old(self).pos_spec(), 11) matches Some(res) ==> cadeia(
                    self.tokens@,
                    11,
                    vista_expr(esq),
                    self.pos as int,
                ) == Some(res),
            decreases self.tokens@.len() - self.pos,
        {
            let dir = self.ou_bit()?;
            let span = unir_span(&esq.span(), &dir.span());
            esq = Expr::Logica { op: OpLogica::E, esq: Box::new(esq), dir: Box::new(dir), span };
        }
        Ok(esq)
    }

    // Operadores de bits: | (menor precedência) -> ^ -> & (maior)
    fn ou_bit(&mut self) -> (r: Result<Expr, Diagnostico>)
        requires
            old(self).bem_formado(),
        ensures
            r matches Err(d) ==> eh_codigo_conhecido(d.codigo@),
            mantem(*old(self), *final(self)),
            r is Ok ==> final(self).pos > old(self).pos,
            expr_res_ok(r),
            reconhece(*old(self), *final(self), r, 10),
            sem_expressao_em(*old(self), *final(self), r),
        decreases limite_interp(old(self).tokens_spec()), old(self).tokens_spec().len() - old(self).pos_spec(), 11nat,
    {
        let mut esq = self.xor_bit()?;
        while self.casar(&TipoToken::OuBit)
            invariant
                !sem_expressao(old(self).tokens_spec()[old(self).pos_spec()].tipo),
                mantem(*old(self), *self),
                self.pos > old(self).pos,
                expr_ok(esq),
                expr_simples(old(self).tokens_spec(), old(self).pos_spec(), 10) matches Some(res) ==> cadeia(
                    self.tokens@,
                    10,
                    vista_expr(esq),
                    self.pos as int,
                ) == Some(res),
            decreases self.tokens@.len() - self.pos,
        {
            let dir = self.xor_bit()?;
            let span = unir_span(&esq.span(), &dir.span());
            esq = Expr::Binaria { op: OpBinaria::OuBit, esq: Box::new(esq), dir: Box::new(dir), span };
        }
        Ok(esq)
    }

    fn xor_bit(&mut self) -> (r: Result<Expr, Diagnostico>)
        requires
            old(self).bem_formado(),
        ensures
            r matches Err(d) ==> eh_codigo_conhecido(d.codigo@),
            mantem(*old(self), *final(self)),
            r is Ok ==> final(self).pos > old(self).pos,
            expr_res_ok(r),
            reconhece(*old(self), *final(self), r, 9),
            sem_expressao_em(*old(self), *final(self), r),
        decreases limite_interp(old(self).tokens_spec()), old(self).tokens_spec().len() - old(self).pos_spec(), 10nat,
    {
        let mut esq = self.e_bit()?;
        while self.casar(&TipoToken::OuExclusivo)
            invariant
                !sem_expressao(old(self).tokens_spec()[old(self).pos_spec()].tipo),
                mantem(*old(self), *self),
                self.pos > old(self).pos,
                expr_ok(esq),
                expr_simples(old(self).tokens_spec(), old(self).pos_spec(), 9) matches Some(res) ==> cadeia(
                    self.tokens@,
                    9,
                    vista_expr(esq),
                    self.pos as int,
                ) == Some(res),
            decreases self.tokens@.len() - self.pos,
        {
            let dir = self.e_bit()?;
            let span = unir_span(&esq.span(), &dir.span());
            esq = Expr::Binaria { op: OpBinaria::XorBit, esq: Box::new(esq), dir: Box::new(dir), span };
        }
        Ok(esq)
    }

    fn e_bit(&mut self) -> (r: Result<Expr, Diagnostico>)
        requires
            old(self).bem_formado(),
        ensures
            r matches Err(d) ==> eh_codigo_conhecido(d.codigo@),
            mantem(*old(self), *final(self)),
            r is Ok ==> final(self).pos > old(self).pos,
            expr_res_ok(r),
            reconhece(*old(self), *final(self), r, 8),
            sem_expressao_em(*old(self), *final(self), r),
        decreases limite_interp(old(self).tokens_spec()), old(self).tokens_spec().len() - old(self).pos_spec(), 9nat,
    {
        let mut esq = self.igualdade()?;
        while self.casar(&TipoToken::EBit)
            invariant
                !sem_expressao(old(self).tokens_spec()[old(self).pos_spec()].tipo),
                mantem(*old(self), *self),
                self.pos > old(self).pos,
                expr_ok(esq),
                expr_simples(old(self).tokens_spec(), old(self).pos_spec(), 8) matches Some(res) ==> cadeia(
                    self.tokens@,
                    8,
                    vista_expr(esq),
                    self.pos as int,
                ) == Some(res),
            decreases self.tokens@.len() - self.pos,
        {
            let dir = self.igualdade()?;
            let span = unir_span(&esq.span(), &dir.span());
            esq = Expr::Binaria { op: OpBinaria::EBit, esq: Box::new(esq), dir: Box::new(dir), span };
        }
        Ok(esq)
    }

    fn igualdade(&mut self) -> (r: Result<Expr, Diagnostico>)
        requires
            old(self).bem_formado(),
        ensures
            r matches Err(d) ==> eh_codigo_conhecido(d.codigo@),
            mantem(*old(self), *final(self)),
            r is Ok ==> final(self).pos > old(self).pos,
            expr_res_ok(r),
            reconhece(*old(self), *final(self), r, 7),
            sem_expressao_em(*old(self), *final(self), r),
        decreases limite_interp(old(self).tokens_spec()), old(self).tokens_spec().len() - old(self).pos_spec(), 8nat,
    {
        let mut esq = self.comparacao()?;
        loop
            invariant
                !sem_expressao(old(self).tokens_spec()[old(self).pos_spec()].tipo),
                mantem(*old(self), *self),
                self.pos > old(self).pos,
                expr_ok(esq),
                expr_simples(old(self).tokens_spec(), old(self).pos_spec(), 7) matches Some(res) ==> cadeia(
                    self.tokens@,
                    7,
                    vista_expr(esq),
                    self.pos as int,
                ) == Some(res),
            ensures
                !sem_expressao(old(self).tokens_spec()[old(self).pos_spec()].tipo),
                mantem(*old(self), *self),
                self.pos > old(self).pos,
                expr_ok(esq),
                expr_simples(old(self).tokens_spec(), old(self).pos_spec(), 7) matches Some(res) ==> res == (
                    vista_expr(esq),
                    self.pos as int,
                ),
            decreases self.tokens@.len() - self.pos,
        {
            let op = if self.verificar(&TipoToken::IgualIgual) {
                OpBinaria::Igual
            } else if self.verificar(&TipoToken::Diferente) {
                OpBinaria::Diferente
            } else {
                break;
            };
            self.avancar();
            let dir = self.comparacao()?;
            let span = unir_span(&esq.span(), &dir.span());
            esq = Expr::Binaria { op, esq: Box::new(esq), dir: Box::new(dir), span };
        }
        Ok(esq)
    }

    fn comparacao(&mut self) -> (r: Result<Expr, Diagnostico>)
        requires
            old(self).bem_formado(),
        ensures
            r matches Err(d) ==> eh_codigo_conhecido(d.codigo@),
            mantem(*old(self), *final(self)),
            r is Ok ==> final(self).pos > old(self).pos,
            expr_res_ok(r),
            reconhece(*old(self), *final(self), r, 6),
            sem_expressao_em(*old(self), *final(self), r),
        decreases limite_interp(old(self).tokens_spec()), old(self).tokens_spec().len() - old(self).pos_spec(), 7nat,
    {
        let mut esq = self.deslocamento()?;
        loop
            invariant
                !sem_expressao(old(self).tokens_spec()[old(self).pos_spec()].tipo),
                mantem(*old(self), *self),
                self.pos > old(self).pos,
                expr_ok(esq),
                expr_simples(old(self).tokens_spec(), old(self).pos_spec(), 6) matches Some(res) ==> cadeia(
                    self.tokens@,
                    6,
                    vista_expr(esq),
                    self.pos as int,
                ) == Some(res),
            ensures
                !sem_expressao(old(self).tokens_spec()[old(self).pos_spec()].tipo),
                mantem(*old(self), *self),
                self.pos > old(self).pos,
                expr_ok(esq),
                expr_simples(old(self).tokens_spec(), old(self).pos_spec(), 6) matches Some(res) ==> res == (
                    vista_expr(esq),
                    self.pos as int,
                ),
            decreases self.tokens@.len() - self.pos,
        {
            let op = if self.verificar(&TipoToken::Menor) {
                OpBinaria::Menor
            } else if self.verificar(&TipoToken::Maior) {
                OpBinaria::Maior
            } else if self.verificar(&TipoToken::MenorIgual) {
                OpBinaria::MenorIgual
            } else if self.verificar(&TipoToken::MaiorIgual) {
                OpBinaria::MaiorIgual
            } else {
                break;
            };
            self.avancar();
            let dir = self.deslocamento()?;
            let span = unir_span(&esq.span(), &dir.span());
            esq = Expr::Binaria { op, esq: Box::new(esq), dir: Box::new(dir), span };
        }
        Ok(esq)
    }

    fn deslocamento(&mut self) -> (r: Result<Expr, Diagnostico>)
        requires
            old(self).bem_formado(),
        ensures
            r matches Err(d) ==> eh_codigo_conhecido(d.codigo@),
            mantem(*old(self), *final(self)),
            r is Ok ==> final(self).pos > old(self).pos,
            expr_res_ok(r),
            reconhece(*old(self), *final(self), r, 5),
            sem_expressao_em(*old(self), *final(self), r),
        decreases limite_interp(old(self).tokens_spec()), old(self).tokens_spec().len() - old(self).pos_spec(), 6nat,
    {
        let mut esq = self.soma()?;
        loop
            invariant
                !sem_expressao(old(self).tokens_spec()[old(self).pos_spec()].tipo),
                mantem(*old(self), *self),
                self.pos > old(self).pos,
                expr_ok(esq),
                expr_simples(old(self).tokens_spec(), old(self).pos_spec(), 5) matches Some(res) ==> cadeia(
                    self.tokens@,
                    5,
                    vista_expr(esq),
                    self.pos as int,
                ) == Some(res),
            ensures
                !sem_expressao(old(self).tokens_spec()[old(self).pos_spec()].tipo),
                mantem(*old(self), *self),
                self.pos > old(self).pos,
                expr_ok(esq),
                expr_simples(old(self).tokens_spec(), old(self).pos_spec(), 5) matches Some(res) ==> res == (
                    vista_expr(esq),
                    self.pos as int,
                ),
            decreases self.tokens@.len() - self.pos,
        {
            let op = if self.verificar(&TipoToken::DeslocaEsq) {
                OpBinaria::DeslocaEsq
            } else if self.verificar(&TipoToken::DeslocaDir) {
                OpBinaria::DeslocaDir
            } else {
                break;
            };
            self.avancar();
            let dir = self.soma()?;
            let span = unir_span(&esq.span(), &dir.span());
            esq = Expr::Binaria { op, esq: Box::new(esq), dir: Box::new(dir), span };
        }
        Ok(esq)
    }

    fn soma(&mut self) -> (r: Result<Expr, Diagnostico>)
        requires
            old(self).bem_formado(),
        ensures
            r matches Err(d) ==> eh_codigo_conhecido(d.codigo@),
            mantem(*old(self), *final(self)),
            r is Ok ==> final(self).pos > old(self).pos,
            expr_res_ok(r),
            reconhece(*old(self), *final(self), r, 4),
            sem_expressao_em(*old(self), *final(self), r),
        decreases limite_interp(old(self).tokens_spec()), old(self).tokens_spec().len() - old(self).pos_spec(), 5nat,
    {
        let mut esq = self.produto()?;
        loop
            invariant
                !sem_expressao(old(self).tokens_spec()[old(self).pos_spec()].tipo),
                mantem(*old(self), *self),
                self.pos > old(self).pos,
                expr_ok(esq),
                expr_simples(old(self).tokens_spec(), old(self).pos_spec(), 4) matches Some(res) ==> cadeia(
                    self.tokens@,
                    4,
                    vista_expr(esq),
                    self.pos as int,
                ) == Some(res),
            ensures
                !sem_expressao(old(self).tokens_spec()[old(self).pos_spec()].tipo),
                mantem(*old(self), *self),
                self.pos > old(self).pos,
                expr_ok(esq),
                expr_simples(old(self).tokens_spec(), old(self).pos_spec(), 4) matches Some(res) ==> res == (
                    vista_expr(esq),
                    self.pos as int,
                ),
            decreases self.tokens@.len() - self.pos,
        {
            let op = if self.verificar(&TipoToken::Mais) {
                OpBinaria::Soma
            } else if self.verificar(&TipoToken::Menos) {
                OpBinaria::Subtracao
            } else {
                break;
            };
            self.avancar();
            let dir = self.produto()?;
            let span = unir_span(&esq.span(), &dir.span());
            esq = Expr::Binaria { op, esq: Box::new(esq), dir: Box::new(dir), span };
        }
        Ok(esq)
    }

    fn produto(&mut self) -> (r: Result<Expr, Diagnostico>)
        requires
            old(self).bem_formado(),
        ensures
            r matches Err(d) ==> eh_codigo_conhecido(d.codigo@),
            mantem(*old(self), *final(self)),
            r is Ok ==> final(self).pos > old(self).pos,
            expr_res_ok(r),
            reconhece(*old(self), *final(self), r, 3),
            sem_expressao_em(*old(self), *final(self), r),
        decreases limite_interp(old(self).tokens_spec()), old(self).tokens_spec().len() - old(self).pos_spec(), 4nat,
    {
        let mut esq = self.unario()?;
        loop
            invariant
                !sem_expressao(old(self).tokens_spec()[old(self).pos_spec()].tipo),
                mantem(*old(self), *self),
                self.pos > old(self).pos,
                expr_ok(esq),
                expr_simples(old(self).tokens_spec(), old(self).pos_spec(), 3) matches Some(res) ==> cadeia(
                    self.tokens@,
                    3,
                    vista_expr(esq),
                    self.pos as int,
                ) == Some(res),
            ensures
                !sem_expressao(old(self).tokens_spec()[old(self).pos_spec()].tipo),
                mantem(*old(self), *self),
                self.pos > old(self).pos,
                expr_ok(esq),
                expr_simples(old(self).tokens_spec(), old(self).pos_spec(), 3) matches Some(res) ==> res == (
                    vista_expr(esq),
                    self.pos as int,
                ),
            decreases self.tokens@.len() - self.pos,
        {
            let op = if self.verificar(&TipoToken::Estrela) {
                OpBinaria::Multiplicacao
            } else if self.verificar(&TipoToken::Barra) {
                OpBinaria::Divisao
            } else if self.verificar(&TipoToken::Porcento) {
                OpBinaria::Resto
            } else {
                break;
            };
            self.avancar();
            let dir = self.unario()?;
            let span = unir_span(&esq.span(), &dir.span());
            esq = Expr::Binaria { op, esq: Box::new(esq), dir: Box::new(dir), span };
        }
        Ok(esq)
    }

    fn unario(&mut self) -> (r: Result<Expr, Diagnostico>)
        requires
            old(self).bem_formado(),
        ensures
            r matches Err(d) ==> eh_codigo_conhecido(d.codigo@),
            mantem(*old(self), *final(self)),
            r is Ok ==> final(self).pos > old(self).pos,
            expr_res_ok(r),
            reconhece(*old(self), *final(self), r, 2),
            sem_expressao_em(*old(self), *final(self), r),
        decreases limite_interp(old(self).tokens_spec()), old(self).tokens_spec().len() - old(self).pos_spec(), 3nat,
    {
        let op = if self.verificar(&TipoToken::Nao) {
            Some(OpUnaria::Negacao)
        } else if self.verificar(&TipoToken::Menos) {
            Some(OpUnaria::Negativo)
        } else if self.verificar(&TipoToken::Til) {
            Some(OpUnaria::NaoBit)
        } else {
            None
        };
        if let Some(op) = op {
            let tok = self.avancar();
            let expr = self.unario()?;
            let span = unir_span(&tok.span, &expr.span());
            Ok(Expr::Unaria { op, expr: Box::new(expr), span })
        } else {
            self.chamada()
        }
    }

    /// Argumentos de uma chamada, até o `)` (o `(` já foi consumido).
    /// Itens separados por vírgula até o `)` (argumentos) ou o `]` (lista); o
    /// token que abre já foi consumido.
    fn itens(&mut self, colchete: bool, codigo: u32, mensagem: &str, rotulo: &str) -> (r: Result<
        (Vec<Expr>, Token),
        Diagnostico,
    >)
        requires
            numero_conhecido(codigo as int),
            old(self).bem_formado(),
            old(self).pos > 0,
        ensures
            r matches Err(d) ==> eh_codigo_conhecido(d.codigo@),
            mantem(*old(self), *final(self)),
            r is Ok ==> final(self).pos > old(self).pos,
            r matches Ok(v) ==> forall|i: int| 0 <= i < v.0@.len() ==> expr_ok(#[trigger] v.0@[i]),
            itens_esperados(old(self).tokens_spec(), old(self).pos_spec(), colchete) matches Some((vs, k, fim))
                ==> r matches Ok((args, t)) && vistas_expr(args@) == vs && final(self).pos_spec() == k
                && t.span == fim,
        decreases limite_interp(old(self).tokens_spec()), old(self).tokens_spec().len() - old(self).pos_spec(), 20nat,
    {
        let fecho = if colchete {
            TipoToken::ColcheteDir
        } else {
            TipoToken::ParenDir
        };
        let mut args: Vec<Expr> = Vec::new();
        proof {
            assert(vistas_expr(args@) =~= Seq::<ExprV>::empty());
        }
        if !self.verificar(&fecho) {
            loop
                invariant_except_break
                    itens_esperados(old(self).tokens_spec(), old(self).pos_spec(), colchete) matches Some(res)
                        ==> itens_de(self.tokens@, self.pos - 1, vistas_expr(args@), colchete) == Some(res),
                invariant
                    mantem(*old(self), *self),
                    forall|i: int| 0 <= i < args@.len() ==> expr_ok(#[trigger] args@[i]),
                    self.pos > 0,
                    fecho == (if colchete { TipoToken::ColcheteDir } else { TipoToken::ParenDir }),
                ensures
                    mantem(*old(self), *self),
                    forall|i: int| 0 <= i < args@.len() ==> expr_ok(#[trigger] args@[i]),
                    self.pos > old(self).pos,
                    itens_esperados(old(self).tokens_spec(), old(self).pos_spec(), colchete) matches Some(res)
                        ==> fecha_itens(self.tokens@[self.pos as int].tipo, colchete) && res == (
                        vistas_expr(args@),
                        self.pos + 1,
                        self.tokens@[self.pos as int].span,
                    ),
                decreases self.tokens@.len() - self.pos,
            {
                let ghost antes = vistas_expr(args@);
                let a = self.expressao()?;
                let ghost va = vista_expr(a);
                args.push(a);
                proof {
                    assert(vistas_expr(args@) =~= antes.push(va));
                }
                if !self.casar(&TipoToken::Virgula) {
                    break;
                }
            }
        }
        let fim = self.consumir(&fecho, codigo, mensagem, rotulo)?;
        Ok((args, fim))
    }

    /// Os pares `"chave": valor` de um dicionário até o `}`; o `{` já foi
    /// consumido.
    fn pares(&mut self) -> (r: Result<(Vec<EntradaDic>, Token), Diagnostico>)
        requires
            old(self).bem_formado(),
            old(self).pos > 0,
        ensures
            r matches Err(d) ==> eh_codigo_conhecido(d.codigo@),
            mantem(*old(self), *final(self)),
            r is Ok ==> final(self).pos > old(self).pos,
            r matches Ok(v) ==> forall|i: int|
                0 <= i < v.0@.len() ==> match #[trigger] v.0@[i] {
                    EntradaDic::Par(_, x) => expr_ok(x),
                },
            pares_esperados(old(self).tokens_spec(), old(self).pos_spec()) matches Some((vs, k, fim)) ==> r matches Ok(
                (ps, t),
            ) && vistas_pares(ps@) == vs && final(self).pos_spec() == k && t.span == fim,
        decreases limite_interp(old(self).tokens_spec()), old(self).tokens_spec().len() - old(self).pos_spec(), 20nat,
    {
        let mut pares: Vec<EntradaDic> = Vec::new();
        proof {
            assert(vistas_pares(pares@) =~= Seq::<(String, ExprV)>::empty());
        }
        if !self.verificar(&TipoToken::ChaveDir) {
            loop
                invariant_except_break
                    pares_esperados(old(self).tokens_spec(), old(self).pos_spec()) matches Some(res)
                        ==> pares_de(self.tokens@, self.pos - 1, vistas_pares(pares@)) == Some(res),
                invariant
                    mantem(*old(self), *self),
                    self.pos > 0,
                    forall|i: int|
                        0 <= i < pares@.len() ==> match #[trigger] pares@[i] {
                            EntradaDic::Par(_, v) => expr_ok(v),
                        },
                ensures
                    mantem(*old(self), *self),
                    self.pos > old(self).pos,
                    forall|i: int|
                        0 <= i < pares@.len() ==> match #[trigger] pares@[i] {
                            EntradaDic::Par(_, v) => expr_ok(v),
                        },
                    pares_esperados(old(self).tokens_spec(), old(self).pos_spec()) matches Some(res)
                        ==> self.tokens@[self.pos as int].tipo is ChaveDir && res == (
                        vistas_pares(pares@),
                        self.pos + 1,
                        self.tokens@[self.pos as int].span,
                    ),
                decreases self.tokens@.len() - self.pos,
            {
                let chave = self.consumir(
                    &TipoToken::Texto(String::new()),
                    K010,
                    "esperava uma chave de texto no dicionário",
                    "a chave deve ser um texto entre aspas",
                )?;
                self.consumir(
                    &TipoToken::DoisPontos,
                    K010,
                    "esperava ':' entre a chave e o valor",
                    "separe chave e valor com ':'",
                )?;
                let ghost antes = vistas_pares(pares@);
                let valor = self.expressao()?;
                let ghost par = (chave.lexema, vista_expr(valor));
                pares.push(EntradaDic::Par(chave.lexema, valor));
                proof {
                    assert(vistas_pares(pares@) =~= antes.push(par));
                }
                if !self.casar(&TipoToken::Virgula) {
                    break;
                }
            }
        }
        let fim = self.consumir(
            &TipoToken::ChaveDir,
            K010,
            "esperava '}' para fechar o dicionário",
            "feche o dicionário com '}'",
        )?;
        Ok((pares, fim))
    }

    fn chamada(&mut self) -> (r: Result<Expr, Diagnostico>)
        requires
            old(self).bem_formado(),
        ensures
            r matches Err(d) ==> eh_codigo_conhecido(d.codigo@),
            mantem(*old(self), *final(self)),
            r is Ok ==> final(self).pos > old(self).pos,
            expr_res_ok(r),
            reconhece(*old(self), *final(self), r, 1),
            sem_expressao_em(*old(self), *final(self), r),
        decreases limite_interp(old(self).tokens_spec()), old(self).tokens_spec().len() - old(self).pos_spec(), 2nat,
    {
        let mut expr = self.primario()?;
        loop
            invariant
                !sem_expressao(old(self).tokens_spec()[old(self).pos_spec()].tipo),
                mantem(*old(self), *self),
                self.pos > old(self).pos,
                expr_ok(expr),
                expr_simples(old(self).tokens_spec(), old(self).pos_spec(), 1) matches Some(res) ==> sufixos(
                    self.tokens@,
                    vista_expr(expr),
                    self.pos as int,
                ) == Some(res),
            ensures
                !sem_expressao(old(self).tokens_spec()[old(self).pos_spec()].tipo),
                mantem(*old(self), *self),
                self.pos > old(self).pos,
                expr_ok(expr),
                expr_simples(old(self).tokens_spec(), old(self).pos_spec(), 1) matches Some(res) ==> res == (
                    vista_expr(expr),
                    self.pos as int,
                ),
            decreases self.tokens@.len() - self.pos,
        {
            if self.verificar(&TipoToken::ParenEsq) {
                self.avancar();
                let (args, fim) = self.itens(
                    false,
                    K004,
                    "esperava ')' para fechar a chamada",
                    "feche os argumentos com ')'",
                )?;
                let span = unir_span(&expr.span(), &fim.span);
                let ghost alvo_g = expr;
                let ghost args_g = args;
                expr = Expr::Chamada { alvo: Box::new(expr), args, span };
                proof {
                    lema_vista_chamada(alvo_g, args_g, span);
                }
            } else if self.verificar(&TipoToken::ColcheteEsq) {
                self.avancar();
                let indice = self.expressao()?;
                let fim = self.consumir(
                    &TipoToken::ColcheteDir,
                    K004,
                    "esperava ']' para fechar a indexação",
                    "feche o índice com ']'",
                )?;
                let span = unir_span(&expr.span(), &fim.span);
                expr = Expr::Indice { alvo: Box::new(expr), indice: Box::new(indice), span };
            } else if self.verificar(&TipoToken::Ponto) {
                self.avancar();
                // O membro é um identificador; 'construtor' é permitido (para base.construtor()).
                let membro = if self.verificar(&TipoToken::Construtor) {
                    self.avancar()
                } else {
                    self.consumir_nome(
                        K011,
                        "esperava o nome de um membro após '.'",
                        "escreva o nome do método ou atributo aqui",
                    )?
                };
                let span = unir_span(&expr.span(), &membro.span);
                expr = Expr::Acesso { alvo: Box::new(expr), membro: membro.lexema, span };
            } else {
                break;
            }
        }
        Ok(expr)
    }

    /// A função anônima `funcao(parâmetros) { corpo }`.
    fn funcao_anonima(&mut self) -> (r: Result<Expr, Diagnostico>)
        requires
            old(self).bem_formado(),
            old(self).tipo_atual() is Funcao,
        ensures
            r matches Err(d) ==> eh_codigo_conhecido(d.codigo@),
            mantem(*old(self), *final(self)),
            r is Ok ==> final(self).pos > old(self).pos,
            r matches Ok(e) ==> expr_ok(e) && (e matches Expr::FuncaoAnon { span, .. } && span == old(
                self,
            ).tokens_spec()[old(self).pos_spec()].span),
            funcao_anon(old(self).tokens_spec(), old(self).pos_spec()) matches Some((v, l)) ==> (r matches Ok(e)
                && vista_expr(e) == v && final(self).pos_spec() == l),
        decreases limite_interp(old(self).tokens_spec()), old(self).tokens_spec().len() - old(self).pos_spec(), 0nat,
    {
        broadcast use grupo_gramatica;

        proof {
            self.lema_nao_fim();
        }
        let inicio = self.avancar();
        let ghost ts = self.tokens_spec();
        let ghost alvo = params_simples(ts, self.pos_spec());
        let params = self.lista_parametros()?;
        let ghost k = self.pos_spec();
        let ghost corpo_alvo = bloco_simples(ts, k, false, true);
        let corpo = self.corpo_funcao()?;
        proof {
            if let Some((ns, _)) = alvo {
                lema_params_vista(params, ns);
                if let Some((vs, _)) = corpo_alvo {
                    lema_correspondem(corpo, vs);
                }
            }
        }
        Ok(Expr::FuncaoAnon { params, corpo, span: inicio.span })
    }

    /// O texto interpolado `$"...{código}..."`: `"" + parte0 + parte1 + ...`,
    /// com cada trecho de código lido por um analisador próprio.
    fn texto_interpolado(&mut self) -> (r: Result<Expr, Diagnostico>)
        requires
            old(self).bem_formado(),
            old(self).tipo_atual() is TextoInterp,
        ensures
            r matches Err(d) ==> eh_codigo_conhecido(d.codigo@),
            mantem(*old(self), *final(self)),
            r is Ok ==> final(self).pos > old(self).pos,
            expr_res_ok(r),
            ({
                let t = old(self).tokens_spec()[old(self).pos_spec()];
                &&& t.tipo matches TipoToken::TextoInterp(ps) ==> (interp_analisavel(ps@) ==> r is Ok)
                &&& t.tipo matches TipoToken::TextoInterp(ps) ==> (r matches Ok(e) ==> forma_interp(e, ps@, t.span)
                    && forall|k: int|
                    0 <= k < ps@.len() ==> (#[trigger] ps@[k] matches Pedaco::Cod(c) ==> lexico(c@) is Ok))
                &&& r matches Err(d) ==> d.codigo@ == formato_codigo(18) && d.span == t.span && mensagem_interp(d.mensagem@)
            }),
        decreases limite_interp(old(self).tokens_spec()), old(self).tokens_spec().len() - old(self).pos_spec(), 0nat,
    {
        let tok = self.atual().clone();
        let pedacos = match tok.tipo {
            TipoToken::TextoInterp(ps) => ps,
            _ => Vec::new(),
        };
        self.avancar();
        // constrói: "" + parte0 + parte1 + ... (garante semântica de texto)
        let mut acc = Expr::Texto(String::new(), tok.span);
        let mut i: usize = 0;
        proof {
            lema_token_no_limite(self.tokens@, old(self).pos as int);
        }
        while i < pedacos.len()
            invariant
                tok.span == old(self).tokens_spec()[old(self).pos_spec()].span,
                mantem(*old(self), *self),
                self.pos > old(self).pos,
                expr_ok(acc),
                pedacos@ == old(self).tipo_atual()->TextoInterp_0@,
                old(self).tipo_atual() is TextoInterp,
                limite_pedacos(pedacos@) <= limite_interp(old(self).tokens@),
                i <= pedacos@.len(),
                forma_interp(acc, pedacos@.take(i as int), tok.span),
                forall|k: int|
                    0 <= k < i ==> (#[trigger] pedacos@[k] matches Pedaco::Cod(c) ==> lexico(c@) is Ok),
            decreases pedacos@.len() - i,
        {
            let parte = match &pedacos[i] {
                Pedaco::Lit(s) => Expr::Texto(s.clone(), tok.span),
                Pedaco::Cod(src) => {
                    proof {
                        lema_pedaco_no_limite(pedacos@, i as int);
                    }
                    let mut lexer = Lexer::novo(src.as_str());
                    let toks = match lexer.tokenizar() {
                        Ok(t) => t,
                        Err(d) => {
                            proof {
                                assert(pedacos@[i as int] matches Pedaco::Cod(c) && !codigo_analisavel(c@));
                            }
                            return Err(erro_interp(&d, &tok.span));
                        },
                    };
                    proof {
                        lema_tokens_limitados(toks@, src@.len());
                    }
                    let ghost ts = toks@;
                    let mut sub = Parser::novo(toks);
                    match sub.analisar_expressao() {
                        Ok(e) => {
                            assert(descreve_tokens(ts) == descreve_tokens(ts));
                            e
                        },
                        Err(d) => {
                            proof {
                                if codigo_analisavel(src@) {
                                    assert(descreve_tokens(ts) == descreve_tokens(ts));
                                }
                                assert(pedacos@[i as int] matches Pedaco::Cod(c) && !codigo_analisavel(c@));
                            }
                            return Err(erro_interp(&d, &tok.span));
                        },
                    }
                },
            };
            assert(expr_ok(parte));
            assert(parte_interp(parte, pedacos@[i as int], tok.span));
            let ghost antes = acc;
            acc = Expr::Binaria {
                op: OpBinaria::Soma,
                esq: Box::new(acc),
                dir: Box::new(parte),
                span: tok.span,
            };
            proof {
                assert(pedacos@.take(i + 1).drop_last() =~= pedacos@.take(i as int));
                assert(forma_interp(antes, pedacos@.take(i + 1).drop_last(), tok.span));
            }
            i = i + 1;
        }
        proof {
            assert(pedacos@.take(i as int) =~= pedacos@);
        }
        Ok(acc)
    }

    #[verifier::spinoff_prover]
    #[verifier::rlimit(60)]
    fn primario(&mut self) -> (r: Result<Expr, Diagnostico>)
        requires
            old(self).bem_formado(),
        ensures
            r matches Err(d) ==> eh_codigo_conhecido(d.codigo@),
            mantem(*old(self), *final(self)),
            r is Ok ==> final(self).pos > old(self).pos,
            expr_res_ok(r),
            ({
                let t = old(self).tokens_spec()[old(self).pos_spec()];
                &&& t.tipo matches TipoToken::Inteiro(n) ==> r == Ok::<Expr, Diagnostico>(
                    Expr::Inteiro(n, t.span),
                )
                &&& t.tipo matches TipoToken::Decimal(d) ==> r == Ok::<Expr, Diagnostico>(
                    Expr::Decimal(d, t.span),
                )
                &&& t.tipo matches TipoToken::Texto(c) ==> r == Ok::<Expr, Diagnostico>(
                    Expr::Texto(c, t.span),
                )
                &&& t.tipo matches TipoToken::Identificador(nome) ==> r == Ok::<Expr, Diagnostico>(
                    Expr::Variavel(nome, t.span),
                )
                &&& t.tipo is Verdadeiro ==> r == Ok::<Expr, Diagnostico>(Expr::Booleano(true, t.span))
                &&& t.tipo is Falso ==> r == Ok::<Expr, Diagnostico>(Expr::Booleano(false, t.span))
                &&& t.tipo is Nulo ==> r == Ok::<Expr, Diagnostico>(Expr::Nulo(t.span))
                &&& t.tipo is Isto ==> r == Ok::<Expr, Diagnostico>(Expr::Isto(t.span))
                &&& t.tipo is Base ==> r == Ok::<Expr, Diagnostico>(Expr::Base(t.span))
                &&& t.tipo is ColcheteEsq ==> (r matches Ok(e) ==> e is Lista)
                &&& t.tipo is ChaveEsq ==> (r matches Ok(e) ==> e is Dicionario)
                &&& t.tipo is Funcao ==> (r matches Ok(e) ==> e is FuncaoAnon)
                &&& t.tipo is Funcao ==> (funcao_anon(old(self).tokens_spec(), old(self).pos_spec()) matches Some((v, l))
                    ==> (r matches Ok(e) && vista_expr(e) == v && final(self).pos_spec() == l))
                &&& t.tipo is Novo ==> (r matches Ok(e) ==> e is Novo)
                &&& t.tipo matches TipoToken::TextoInterp(ps) ==> (interp_analisavel(ps@) ==> r is Ok)
                &&& t.tipo is TextoInterp ==> (r matches Err(d) ==> d.codigo@ == formato_codigo(18) && d.span == t.span
                    && mensagem_interp(d.mensagem@))
                &&& t.tipo matches TipoToken::TextoInterp(ps) ==> (r matches Ok(e) ==> forma_interp(e, ps@, t.span)
                    && forall|k: int|
                    0 <= k < ps@.len() ==> (#[trigger] ps@[k] matches Pedaco::Cod(c) ==> lexico(c@) is Ok))
                &&& !inicia_expressao(t.tipo) ==> (r matches Err(d) && d.codigo@ == formato_codigo(8)
                    && d.span == t.span)
            }),
            reconhece(*old(self), *final(self), r, 0),
            sem_expressao_em(*old(self), *final(self), r),
        decreases limite_interp(old(self).tokens_spec()), old(self).tokens_spec().len() - old(self).pos_spec(), 1nat,
    {
        let tok = self.atual().clone();
        match tok.tipo {
            TipoToken::Inteiro(n) => {
                self.avancar();
                Ok(Expr::Inteiro(n, tok.span))
            },
            TipoToken::Decimal(d) => {
                self.avancar();
                Ok(Expr::Decimal(d, tok.span))
            },
            TipoToken::Texto(t) => {
                self.avancar();
                Ok(Expr::Texto(t, tok.span))
            },
            TipoToken::TextoInterp(_) => self.texto_interpolado(),
            TipoToken::Verdadeiro => {
                self.avancar();
                Ok(Expr::Booleano(true, tok.span))
            },
            TipoToken::Falso => {
                self.avancar();
                Ok(Expr::Booleano(false, tok.span))
            },
            TipoToken::Nulo => {
                self.avancar();
                Ok(Expr::Nulo(tok.span))
            },
            TipoToken::Isto => {
                self.avancar();
                Ok(Expr::Isto(tok.span))
            },
            TipoToken::Base => {
                self.avancar();
                Ok(Expr::Base(tok.span))
            },
            TipoToken::Novo => {
                self.avancar();
                let ini = self.consumir_nome(
                    K014,
                    "esperava o nome da classe após 'novo'",
                    "escreva o nome da classe aqui",
                )?;
                // Referência à classe: nome simples ou qualificado (`geo.Ponto`).
                let ghost inicial = ExprV::Folha(Expr::Variavel(ini.lexema, ini.span));
                let mut classe = Expr::Variavel(ini.lexema, ini.span);
                while self.casar(&TipoToken::Ponto)
                    invariant
                        old(self).tokens_spec()[old(self).pos_spec()].tipo is Novo,
                        mantem(*old(self), *self),
                        self.pos > old(self).pos,
                        expr_ok(classe),
                        classe_novo(self.tokens@, self.pos as int, vista_expr(classe)) == classe_novo(
                            old(self).tokens_spec(),
                            old(self).pos_spec() + 2,
                            inicial,
                        ),
                        old(self).pos_spec() + 1 < old(self).tokens_spec().len(),
                        old(self).tokens_spec()[old(self).pos_spec() + 1].tipo is Identificador,
                        inicial == ExprV::Folha(
                            Expr::Variavel(
                                old(self).tokens_spec()[old(self).pos_spec() + 1].lexema,
                                old(self).tokens_spec()[old(self).pos_spec() + 1].span,
                            ),
                        ),
                    decreases self.tokens@.len() - self.pos,
                {
                    let membro = self.consumir_nome(
                        K011,
                        "esperava o nome da classe após '.'",
                        "escreva o nome do membro aqui",
                    )?;
                    let span = unir_span(&classe.span(), &membro.span);
                    classe = Expr::Acesso { alvo: Box::new(classe), membro: membro.lexema, span };
                }
                self.consumir(
                    &TipoToken::ParenEsq,
                    K014,
                    "esperava '(' para os argumentos do construtor",
                    "abra os parênteses aqui",
                )?;
                let (args, fim) = self.itens(
                    false,
                    K014,
                    "esperava ')' para fechar os argumentos",
                    "feche os parênteses aqui",
                )?;
                let span = unir_span(&tok.span, &fim.span);
                proof {
                    lema_vista_novo(classe, args, span);
                }
                Ok(Expr::Novo { classe: Box::new(classe), args, span })
            },
            TipoToken::Identificador(nome) => {
                self.avancar();
                Ok(Expr::Variavel(nome, tok.span))
            },
            TipoToken::ParenEsq => {
                self.avancar();
                let e = self.expressao()?;
                self.consumir(
                    &TipoToken::ParenDir,
                    K004,
                    "esperava ')' para fechar a expressão",
                    "feche os parênteses aqui",
                )?;
                Ok(e)
            },
            TipoToken::ColcheteEsq => {
                self.avancar();
                let (itens, fim) = self.itens(
                    true,
                    K004,
                    "esperava ']' para fechar a lista",
                    "feche a lista com ']'",
                )?;
                let span = unir_span(&tok.span, &fim.span);
                proof {
                    lema_vista_lista(itens, span);
                }
                Ok(Expr::Lista(itens, span))
            },
            TipoToken::ChaveEsq => {
                self.avancar();
                let (pares, fim) = self.pares()?;
                let span = unir_span(&tok.span, &fim.span);
                proof {
                    lema_vista_dicionario(pares, span);
                }
                Ok(Expr::Dicionario(pares, span))
            },
            TipoToken::Funcao => {
                proof {
                    passo_funcao_anon(self.tokens_spec(), self.pos_spec());
                }
                self.funcao_anonima()
            },
            outro => {
                let mut msg = texto("esperava uma expressão, mas encontrei ");
                let d = descricao(&outro);
                msg.append(d.as_str());
                Err(erro(K008, msg, tok.span, "não esperava isto aqui"))
            },
        }
    }
}

/// As palavras que começam um comando de controle (e não uma expressão).
pub open spec fn comeca_comando(t: TipoToken) -> bool {
    ||| t is Se
    ||| t is Escolha
    ||| t is Enquanto
    ||| t is Para
    ||| t is Tente
    ||| t is Lance
    ||| t is Retorne
    ||| t is Pare
    ||| t is Continue
}

/// Os tokens que podem começar uma expressão primária.
pub open spec fn inicia_expressao(t: TipoToken) -> bool {
    ||| t is Inteiro
    ||| t is Decimal
    ||| t is Texto
    ||| t is TextoInterp
    ||| t is Identificador
    ||| t is Verdadeiro
    ||| t is Falso
    ||| t is Nulo
    ||| t is Isto
    ||| t is Base
    ||| t is Novo
    ||| t is ParenEsq
    ||| t is ColcheteEsq
    ||| t is ChaveEsq
    ||| t is Funcao
}

// ---- A gramática das expressões simples ----
//
// Os níveis de precedência, do mais forte ao mais fraco: 0 primário, 1 sufixos
// (chamada `(...)`, `.membro` e `[índice]`), 2 unários (`nao`, `-`, `~`),
// 3 `* / %`, 4 `+ -`, 5 `<< >>`, 6 `< > <= >=`, 7 `== !=`, 8 `&`, 9 `^`,
// 10 `|`, 11 `e`, 12 `ou`, 13 ternário (`? :`, à direita) e 14 atribuição
// (`=` e os compostos `+= -= *= /= %=`, à direita; `a OP= b` é `a = a OP b`).
// Os operadores binários dos níveis 3 a 12 associam à esquerda.
//
// `expr_simples(ts, i, n)` é a forma da expressão de nível `n` que começa no
// token `i` e a posição logo depois dela, para as expressões feitas de
// literais, nomes, `isto`, `base`, parênteses, listas, dicionários, `novo`,
// funções anônimas, chamadas, acesso a membro, indexação, operadores e
// atribuições (simples e compostas). Fora desse fragmento (textos
// interpolados) e quando a expressão está malformada, é `None`, e nada é dito
// aqui.

/// O operador binário que o token escreve no nível `n` (3 a 10).
pub open spec fn op_binario_nivel(n: nat, t: TipoToken) -> Option<OpBinaria> {
    if n == 3 {
        if t is Estrela { Some(OpBinaria::Multiplicacao) }
        else if t is Barra { Some(OpBinaria::Divisao) }
        else if t is Porcento { Some(OpBinaria::Resto) }
        else { None }
    } else if n == 4 {
        if t is Mais { Some(OpBinaria::Soma) }
        else if t is Menos { Some(OpBinaria::Subtracao) }
        else { None }
    } else if n == 5 {
        if t is DeslocaEsq { Some(OpBinaria::DeslocaEsq) }
        else if t is DeslocaDir { Some(OpBinaria::DeslocaDir) }
        else { None }
    } else if n == 6 {
        if t is Menor { Some(OpBinaria::Menor) }
        else if t is Maior { Some(OpBinaria::Maior) }
        else if t is MenorIgual { Some(OpBinaria::MenorIgual) }
        else if t is MaiorIgual { Some(OpBinaria::MaiorIgual) }
        else { None }
    } else if n == 7 {
        if t is IgualIgual { Some(OpBinaria::Igual) }
        else if t is Diferente { Some(OpBinaria::Diferente) }
        else { None }
    } else if n == 8 {
        if t is EBit { Some(OpBinaria::EBit) } else { None }
    } else if n == 9 {
        if t is OuExclusivo { Some(OpBinaria::XorBit) } else { None }
    } else if n == 10 {
        if t is OuBit { Some(OpBinaria::OuBit) } else { None }
    } else {
        None
    }
}

/// O operador lógico que o token escreve no nível `n` (11 e 12).
pub open spec fn op_logico_nivel(n: nat, t: TipoToken) -> Option<OpLogica> {
    if n == 11 && t is E {
        Some(OpLogica::E)
    } else if n == 12 && t is Ou {
        Some(OpLogica::Ou)
    } else {
        None
    }
}

/// O operador unário que o token escreve.
pub open spec fn op_unario(t: TipoToken) -> Option<OpUnaria> {
    if t is Nao {
        Some(OpUnaria::Negacao)
    } else if t is Menos {
        Some(OpUnaria::Negativo)
    } else if t is Til {
        Some(OpUnaria::NaoBit)
    } else {
        None
    }
}

/// O operador que uma atribuição composta aplica: `+=` soma, `-=` subtrai,
/// `*=` multiplica, `/=` divide e `%=` toma o resto.
pub open spec fn op_composto_de(t: TipoToken) -> Option<OpBinaria> {
    match t {
        TipoToken::MaisIgual => Some(OpBinaria::Soma),
        TipoToken::MenosIgual => Some(OpBinaria::Subtracao),
        TipoToken::EstrelaIgual => Some(OpBinaria::Multiplicacao),
        TipoToken::BarraIgual => Some(OpBinaria::Divisao),
        TipoToken::PorcentoIgual => Some(OpBinaria::Resto),
        _ => None,
    }
}

/// Como cada operador binário se escreve no código-fonte.
pub open spec fn grafia_operador(op: OpBinaria) -> Seq<char> {
    match op {
        OpBinaria::Soma => seq!['+'],
        OpBinaria::Subtracao => seq!['-'],
        OpBinaria::Multiplicacao => seq!['*'],
        OpBinaria::Divisao => seq!['/'],
        OpBinaria::Resto => seq!['%'],
        OpBinaria::Igual => seq!['=', '='],
        OpBinaria::Diferente => seq!['!', '='],
        OpBinaria::Menor => seq!['<'],
        OpBinaria::Maior => seq!['>'],
        OpBinaria::MenorIgual => seq!['<', '='],
        OpBinaria::MaiorIgual => seq!['>', '='],
        OpBinaria::EBit => seq!['&'],
        OpBinaria::OuBit => seq!['|'],
        OpBinaria::XorBit => seq!['^'],
        OpBinaria::DeslocaEsq => seq!['<', '<'],
        OpBinaria::DeslocaDir => seq!['>', '>'],
    }
}

/// O operador que a árvore guarda é o que os caracteres escrevem: quando o
/// léxico lê em `p` um símbolo que termina antes de `q`, e a gramática o
/// trata como operador binário (em qualquer nível de precedência), o trecho
/// lido é a grafia desse operador (`>` dá "maior", `>=` dá "maior ou
/// igual", ...); um operador composto (`+=`, ...) é a grafia do operador
/// seguida de `=`.
pub proof fn lei_operadores_escritos(s: Seq<char>, p: int, n: nat)
    requires
        0 <= p,
    ensures
        simbolo_em(s, p) matches Some((t, q)) ==> (op_binario_nivel(n, t) matches Some(op) ==> p < q <= s.len()
            && s.subrange(p, q) == grafia_operador(op)),
        simbolo_em(s, p) matches Some((t, q)) ==> (op_composto_de(t) matches Some(op) ==> p < q <= s.len()
            && s.subrange(p, q) == grafia_operador(op).push('=')),
{
    if p < s.len() {
        assert(car(s, p) == s[p]);
        assert(s.subrange(p, p + 1) =~= seq![s[p]]);
        if p + 1 < s.len() {
            assert(car(s, p + 1) == s[p + 1]);
            assert(s.subrange(p, p + 2) =~= seq![s[p], s[p + 1]]);
        }
    }
}

/// Os operadores lógicos e unários são os que os tokens escrevem: `e` e `ou`
/// são as palavras-chave "e" e "ou", `nao` é a palavra-chave "nao", e o
/// menos e o til são os símbolos `-` e `~`.
pub proof fn lei_operadores_palavras(s: Seq<char>, p: int, n: nat, t: TipoToken)
    requires
        0 <= p,
    ensures
        op_logico_nivel(n, t) == Some(OpLogica::E) ==> grafia(t) == Some("e"@),
        op_logico_nivel(n, t) == Some(OpLogica::Ou) ==> grafia(t) == Some("ou"@),
        op_logico_nivel(n, t) is Some ==> !(op_logico_nivel(n, t) == Some(OpLogica::CoalesceNulo)),
        op_unario(t) == Some(OpUnaria::Negacao) ==> grafia(t) == Some("nao"@),
        simbolo_em(s, p) matches Some((u, q)) ==> (op_unario(u) matches Some(op) ==> p < q <= s.len() && s.subrange(
            p,
            q,
        ) == (if op is Negativo { seq!['-'] } else { seq!['~'] })),
{
    if p < s.len() {
        assert(car(s, p) == s[p]);
        assert(s.subrange(p, p + 1) =~= seq![s[p]]);
    }
}

/// O nível de precedência de cada operador binário, do que liga mais forte
/// (3: `* / %`) ao que liga mais fraco (10: `|`): `+ -` em 4, `<< >>` em 5,
/// `< > <= >=` em 6, `== !=` em 7, `&` em 8 e `^` em 9.
pub open spec fn precedencia(op: OpBinaria) -> nat {
    match op {
        OpBinaria::Multiplicacao | OpBinaria::Divisao | OpBinaria::Resto => 3,
        OpBinaria::Soma | OpBinaria::Subtracao => 4,
        OpBinaria::DeslocaEsq | OpBinaria::DeslocaDir => 5,
        OpBinaria::Menor | OpBinaria::Maior | OpBinaria::MenorIgual | OpBinaria::MaiorIgual => 6,
        OpBinaria::Igual | OpBinaria::Diferente => 7,
        OpBinaria::EBit => 8,
        OpBinaria::XorBit => 9,
        OpBinaria::OuBit => 10,
    }
}

/// A gramática lê cada operador binário no seu nível de precedência e só
/// nele: `*` liga mais forte que `+`, que liga mais forte que as
/// comparações, e assim por diante.
pub proof fn lei_precedencia(n: nat, t: TipoToken)
    ensures
        op_binario_nivel(n, t) matches Some(op) ==> n == precedencia(op),
        op_logico_nivel(n, t) == Some(OpLogica::E) ==> n == 11,
        op_logico_nivel(n, t) == Some(OpLogica::Ou) ==> n == 12,
{
}

/// O código de um trecho interpolado é analisável: passa pelo léxico e, para
/// toda sequência de tokens com esse conteúdo, a expressão simples vai até o
/// fim dos tokens.
pub open spec fn codigo_analisavel(c: Seq<char>) -> bool {
    lexico(c) matches Ok(ls) && forall|ts: Seq<Token>|
        #[trigger] descreve_tokens(ts) == ls && tokens_bem_formados(ts, c.len()) ==> match expr_simples(ts, 0, 14) {
            Some((_, j)) => ts[j].tipo is FimDeArquivo,
            None => false,
        }
}

/// Todos os trechos de código de um texto interpolado são analisáveis.
pub open spec fn interp_analisavel(ps: Seq<Pedaco>) -> bool {
    forall|k: int| 0 <= k < ps.len() ==> (#[trigger] ps[k] matches Pedaco::Cod(c) ==> codigo_analisavel(c@))
}

/// A parte `{código}` de um texto interpolado vira a expressão que o analisador
/// dá para o código: o código é lido sem erro léxico e, quando a expressão é do
/// fragmento de `expr_simples`, ela usa o código todo e tem a forma dada.
pub open spec fn parte_codigo(d: Expr, c: Seq<char>) -> bool {
    lexico(c) matches Ok(ls) && exists|ts: Seq<Token>|
        #[trigger] descreve_tokens(ts) == ls && tokens_bem_formados(ts, c.len()) && (expr_simples(ts, 0, 14) matches Some(
            (v, j),
        ) ==> (ts[j].tipo is FimDeArquivo && vista_expr(d) == v))
}

/// Uma parte de um texto interpolado: o trecho literal vira um texto com o
/// span do token; o código, a sua expressão.
pub open spec fn parte_interp(d: Expr, p: Pedaco, span: Span) -> bool {
    match p {
        Pedaco::Lit(s) => d == Expr::Texto(s, span),
        Pedaco::Cod(c) => parte_codigo(d, c@),
    }
}

/// A expressão de um texto interpolado com as partes `ps`: a soma à esquerda
/// `"" + p0 + p1 + ...`, começando do texto vazio, com o span do token em
/// cada soma.
pub open spec fn forma_interp(e: Expr, ps: Seq<Pedaco>, span: Span) -> bool
    decreases ps.len(),
{
    if ps.len() == 0 {
        e matches Expr::Texto(s, sp) && s@ == Seq::<char>::empty() && sp == span
    } else {
        e matches Expr::Binaria { op, esq, dir, span: sp } && op == OpBinaria::Soma && sp == span && forma_interp(
            *esq,
            ps.drop_last(),
            span,
        ) && parte_interp(*dir, ps.last(), span)
    }
}

/// Uma expressão que pode receber uma atribuição: um nome, um índice ou um campo.
pub open spec fn eh_alvo(e: ExprV) -> bool {
    e matches ExprV::Folha(Expr::Variavel(..)) || e is Indice || e is Acesso
}

/// A atribuição de `valor` ao alvo, se o alvo é um nome, um índice ou um campo.
pub open spec fn atribuido(alvo: ExprV, valor: ExprV) -> Option<ExprV> {
    match alvo {
        ExprV::Folha(Expr::Variavel(nome, span)) => Some(
            ExprV::Atribuicao(nome, Box::new(valor), unir_span_spec(span, span_vista(valor))),
        ),
        ExprV::Indice(a, indice, span) => Some(
            ExprV::AtribIndice(a, indice, Box::new(valor), unir_span_spec(span, span_vista(valor))),
        ),
        ExprV::Acesso(a, membro, span) => Some(
            ExprV::AtribCampo(a, membro, Box::new(valor), unir_span_spec(span, span_vista(valor))),
        ),
        _ => None,
    }
}

/// A expressão atômica escrita por um token, se for um literal, um nome,
/// `isto` ou `base`.
pub open spec fn atomo(t: Token) -> Option<Expr> {
    match t.tipo {
        TipoToken::Inteiro(n) => Some(Expr::Inteiro(n, t.span)),
        TipoToken::Decimal(d) => Some(Expr::Decimal(d, t.span)),
        TipoToken::Texto(c) => Some(Expr::Texto(c, t.span)),
        TipoToken::Identificador(nome) => Some(Expr::Variavel(nome, t.span)),
        TipoToken::Verdadeiro => Some(Expr::Booleano(true, t.span)),
        TipoToken::Falso => Some(Expr::Booleano(false, t.span)),
        TipoToken::Nulo => Some(Expr::Nulo(t.span)),
        TipoToken::Isto => Some(Expr::Isto(t.span)),
        TipoToken::Base => Some(Expr::Base(t.span)),
        _ => None,
    }
}

/// O token que fecha uma lista de itens: `]` numa lista, `)` nos argumentos.
pub open spec fn fecha_itens(t: TipoToken, colchete: bool) -> bool {
    if colchete {
        t is ColcheteDir
    } else {
        t is ParenDir
    }
}

/// A forma da expressão simples de nível `n` que começa em `i`, e onde ela
/// termina.
pub open spec fn expr_simples(ts: Seq<Token>, i: int, n: nat) -> Option<(ExprV, int)>
    decreases ts.len() - i, n + 1,
{
    if !(0 <= i < ts.len()) {
        None
    } else if n == 0 {
        match atomo(ts[i]) {
            Some(e) => Some((ExprV::Folha(e), i + 1)),
            None => if ts[i].tipo is ParenEsq {
                match expr_simples(ts, i + 1, 14) {
                    Some((e, j)) => if i + 1 < j < ts.len() && ts[j].tipo is ParenDir {
                        Some((e, j + 1))
                    } else {
                        None
                    },
                    None => None,
                }
            } else if ts[i].tipo is ColcheteEsq {
                let itens = if i + 1 < ts.len() && ts[i + 1].tipo is ColcheteDir {
                    Some((Seq::<ExprV>::empty(), i + 2, ts[i + 1].span))
                } else {
                    itens_de(ts, i, Seq::empty(), true)
                };
                match itens {
                    Some((v, j, fim)) => Some((ExprV::Lista(v, unir_span_spec(ts[i].span, fim)), j)),
                    None => None,
                }
            } else if ts[i].tipo is ChaveEsq {
                let pares = if i + 1 < ts.len() && ts[i + 1].tipo is ChaveDir {
                    Some((Seq::<(String, ExprV)>::empty(), i + 2, ts[i + 1].span))
                } else {
                    pares_de(ts, i, Seq::empty())
                };
                match pares {
                    Some((v, j, fim)) => Some((ExprV::Dicionario(v, unir_span_spec(ts[i].span, fim)), j)),
                    None => None,
                }
            } else if ts[i].tipo is Novo && i + 1 < ts.len() && ts[i + 1].tipo is Identificador {
                let ini = ts[i + 1];
                match classe_novo(ts, i + 2, ExprV::Folha(Expr::Variavel(ini.lexema, ini.span))) {
                    Some((c, j)) => if i + 2 <= j < ts.len() && ts[j].tipo is ParenEsq {
                        let args = if j + 1 < ts.len() && ts[j + 1].tipo is ParenDir {
                            Some((Seq::<ExprV>::empty(), j + 2, ts[j + 1].span))
                        } else {
                            itens_de(ts, j, Seq::empty(), false)
                        };
                        match args {
                            Some((v, k, fim)) => Some(
                                (ExprV::Novo(Box::new(c), v, unir_span_spec(ts[i].span, fim)), k),
                            ),
                            None => None,
                        }
                    } else {
                        None
                    },
                    None => None,
                }
            } else if ts[i].tipo is Funcao {
                funcao_anon(ts, i)
            } else {
                None
            },
        }
    } else if n == 1 {
        match expr_simples(ts, i, 0) {
            Some((e, j)) => if i < j <= ts.len() {
                sufixos(ts, e, j)
            } else {
                None
            },
            None => None,
        }
    } else if n == 2 {
        match op_unario(ts[i].tipo) {
            Some(op) => match expr_simples(ts, i + 1, 2) {
                Some((e, j)) => Some(
                    (ExprV::Unaria(op, Box::new(e), unir_span_spec(ts[i].span, span_vista(e))), j),
                ),
                None => None,
            },
            None => expr_simples(ts, i, 1),
        }
    } else if n <= 12 {
        match expr_simples(ts, i, (n - 1) as nat) {
            Some((e, j)) => if i < j <= ts.len() {
                cadeia(ts, n, e, j)
            } else {
                None
            },
            None => None,
        }
    } else if n == 13 {
        match expr_simples(ts, i, 12) {
            Some((c, j)) => if !(i < j < ts.len()) {
                None
            } else if ts[j].tipo is Interrogacao {
                match expr_simples(ts, j + 1, 13) {
                    Some((a, k)) => if j < k < ts.len() && ts[k].tipo is DoisPontos {
                        match expr_simples(ts, k + 1, 13) {
                            Some((b, l)) => Some(
                                (
                                    ExprV::Ternario(
                                        Box::new(c),
                                        Box::new(a),
                                        Box::new(b),
                                        unir_span_spec(span_vista(c), span_vista(b)),
                                    ),
                                    l,
                                ),
                            ),
                            None => None,
                        }
                    } else {
                        None
                    },
                    None => None,
                }
            } else {
                Some((c, j))
            },
            None => None,
        }
    } else {
        match expr_simples(ts, i, 13) {
            Some((e, j)) => if i < j && j < ts.len() {
                atribuicao_de(ts, j, e)
            } else {
                None
            },
            None => None,
        }
    }
}

/// A função anônima `funcao(parâmetros) { corpo }` que começa em `i`, com
/// parâmetros e corpo simples: a forma (parâmetros, corpo lido dentro de uma
/// função e fora de laços, posição do `funcao`) e a posição logo depois do `}`.
#[verifier::opaque]
pub open spec fn funcao_anon(ts: Seq<Token>, i: int) -> Option<(ExprV, int)>
    decreases ts.len() - i, 0nat,
{
    if 0 <= i && i + 1 < ts.len() && ts[i].tipo is Funcao {
        match params_simples(ts, i + 1) {
            Some((ps, j)) => if i < j && j < ts.len() {
                match bloco_simples(ts, j, false, true) {
                    Some((corpo, k)) => Some((ExprV::FuncaoAnon(ps, corpo, ts[i].span), k)),
                    None => None,
                }
            } else {
                None
            },
            None => None,
        }
    } else {
        None
    }
}

/// Depois do alvo `e`, lido até `j`: com `=`, a atribuição do valor que segue;
/// com um operador composto (`+=`, ...), a atribuição de `e OP valor`; com
/// outro token, o próprio `e`.
pub open spec fn atribuicao_de(ts: Seq<Token>, j: int, e: ExprV) -> Option<(ExprV, int)>
    decreases ts.len() - j, 0nat,
{
    if !(0 <= j < ts.len()) {
        None
    } else if ts[j].tipo is Igual {
        match expr_simples(ts, j + 1, 14) {
            Some((v, k)) => match atribuido(e, v) {
                Some(a) => Some((a, k)),
                None => None,
            },
            None => None,
        }
    } else if let Some(op) = op_composto_de(ts[j].tipo) {
        match expr_simples(ts, j + 1, 14) {
            Some((v, k)) => match atribuido(
                e,
                ExprV::Binaria(op, Box::new(e), Box::new(v), unir_span_spec(span_vista(e), span_vista(v))),
            ) {
                Some(a) => Some((a, k)),
                None => None,
            },
            None => None,
        }
    } else {
        Some((e, j))
    }
}

/// Os itens de uma lista ou de uma chamada depois do separador em `j` (o `[`,
/// o `(` ou uma vírgula), já com `acc` lidos: as formas dos itens, a posição
/// logo depois do fechamento e o span do token que fecha.
pub open spec fn itens_de(ts: Seq<Token>, j: int, acc: Seq<ExprV>, colchete: bool) -> Option<
    (Seq<ExprV>, int, Span),
>
    decreases ts.len() - j, 0nat,
{
    if !(0 <= j < ts.len()) {
        None
    } else {
        match expr_simples(ts, j + 1, 14) {
            Some((a, k)) => if !(j + 1 < k < ts.len()) {
                None
            } else if ts[k].tipo is Virgula {
                itens_de(ts, k, acc.push(a), colchete)
            } else if fecha_itens(ts[k].tipo, colchete) {
                Some((acc.push(a), k + 1, ts[k].span))
            } else {
                None
            },
            None => None,
        }
    }
}

/// Os pares `"chave": valor` de um dicionário depois do separador em `j` (o `{`
/// ou uma vírgula), já com `acc` lidos: as chaves e as formas dos valores, a
/// posição logo depois do `}` e o span dele.
pub open spec fn pares_de(ts: Seq<Token>, j: int, acc: Seq<(String, ExprV)>) -> Option<
    (Seq<(String, ExprV)>, int, Span),
>
    decreases ts.len() - j, 0nat,
{
    if !(0 <= j && j + 3 < ts.len()) {
        None
    } else if ts[j + 1].tipo is Texto && ts[j + 2].tipo is DoisPontos {
        match expr_simples(ts, j + 3, 14) {
            Some((v, k)) => if !(j + 3 < k < ts.len()) {
                None
            } else {
                let novos = acc.push((ts[j + 1].lexema, v));
                if ts[k].tipo is Virgula {
                    pares_de(ts, k, novos)
                } else if ts[k].tipo is ChaveDir {
                    Some((novos, k + 1, ts[k].span))
                } else {
                    None
                }
            },
            None => None,
        }
    } else {
        None
    }
}

/// A referência à classe de um `novo` (um nome, ou um nome qualificado como
/// `geo.Ponto`), a partir de `j`, já com `acc` lido.
pub open spec fn classe_novo(ts: Seq<Token>, j: int, acc: ExprV) -> Option<(ExprV, int)>
    decreases ts.len() - j,
{
    if !(0 <= j < ts.len()) || !(ts[j].tipo is Ponto) {
        Some((acc, j))
    } else if j + 1 < ts.len() && ts[j + 1].tipo is Identificador {
        let m = ts[j + 1];
        classe_novo(ts, j + 2, ExprV::Acesso(Box::new(acc), m.lexema, unir_span_spec(span_vista(acc), m.span)))
    } else {
        None
    }
}

/// Os pares de um dicionário que começam em `p`, logo depois do `{`: nenhum,
/// se o token em `p` já fecha, ou os pares até o `}`.
pub open spec fn pares_esperados(ts: Seq<Token>, p: int) -> Option<(Seq<(String, ExprV)>, int, Span)> {
    if 0 <= p < ts.len() && ts[p].tipo is ChaveDir {
        Some((Seq::empty(), p + 1, ts[p].span))
    } else {
        pares_de(ts, p - 1, Seq::empty())
    }
}

/// Os itens de uma lista ou de uma chamada que começam em `p`, logo depois do
/// `[` ou do `(`: nenhum, se o token em `p` já fecha, ou os itens até o
/// fechamento.
pub open spec fn itens_esperados(ts: Seq<Token>, p: int, colchete: bool) -> Option<(Seq<ExprV>, int, Span)> {
    if 0 <= p < ts.len() && fecha_itens(ts[p].tipo, colchete) {
        Some((Seq::empty(), p + 1, ts[p].span))
    } else {
        itens_de(ts, p - 1, Seq::empty(), colchete)
    }
}

/// O nó que o operador do token `t` forma no nível `n`, com os operandos
/// `esq` e `dir`.
pub open spec fn no_nivel(n: nat, t: TipoToken, esq: ExprV, dir: ExprV) -> ExprV {
    let span = unir_span_spec(span_vista(esq), span_vista(dir));
    match op_binario_nivel(n, t) {
        Some(op) => ExprV::Binaria(op, Box::new(esq), Box::new(dir), span),
        None => match op_logico_nivel(n, t) {
            Some(op) => ExprV::Logica(op, Box::new(esq), Box::new(dir), span),
            None => esq,
        },
    }
}

/// Se o token é um operador do nível `n`.
pub open spec fn operador_do_nivel(n: nat, t: TipoToken) -> bool {
    op_binario_nivel(n, t) is Some || op_logico_nivel(n, t) is Some
}

/// Os operandos seguintes de uma cadeia de nível `n` (3 a 12), já com `acc`
/// à esquerda: cada operador do nível junta o que veio antes ao operando
/// seguinte (associatividade à esquerda).
pub open spec fn cadeia(ts: Seq<Token>, n: nat, acc: ExprV, j: int) -> Option<(ExprV, int)>
    decreases ts.len() - j, n + 1,
{
    if !(0 <= j < ts.len()) || n < 3 || !operador_do_nivel(n, ts[j].tipo) {
        Some((acc, j))
    } else {
        match expr_simples(ts, j + 1, (n - 1) as nat) {
            Some((d, k)) => if j < k <= ts.len() {
                cadeia(ts, n, no_nivel(n, ts[j].tipo, acc, d), k)
            } else {
                None
            },
            None => None,
        }
    }
}

/// Os sufixos de chamada (`(args)`), acesso a membro (`.nome`) e indexação
/// (`[i]`) aplicados a `acc`, da esquerda para a direita.
pub open spec fn sufixos(ts: Seq<Token>, acc: ExprV, j: int) -> Option<(ExprV, int)>
    decreases ts.len() - j, 2nat,
{
    if !(0 <= j < ts.len()) {
        Some((acc, j))
    } else if ts[j].tipo is ParenEsq {
        let args = if j + 1 < ts.len() && ts[j + 1].tipo is ParenDir {
            Some((Seq::<ExprV>::empty(), j + 2, ts[j + 1].span))
        } else {
            itens_de(ts, j, Seq::empty(), false)
        };
        match args {
            Some((v, k, fim)) => if j < k <= ts.len() {
                sufixos(
                    ts,
                    ExprV::Chamada(Box::new(acc), v, unir_span_spec(span_vista(acc), fim)),
                    k,
                )
            } else {
                None
            },
            None => None,
        }
    } else if ts[j].tipo is Ponto {
        if j + 1 < ts.len() && (ts[j + 1].tipo is Construtor || ts[j + 1].tipo is Identificador) {
            let m = ts[j + 1];
            sufixos(
                ts,
                ExprV::Acesso(Box::new(acc), m.lexema, unir_span_spec(span_vista(acc), m.span)),
                j + 2,
            )
        } else {
            None
        }
    } else if ts[j].tipo is ColcheteEsq {
        match expr_simples(ts, j + 1, 14) {
            Some((ind, k)) => if j < k < ts.len() && ts[k].tipo is ColcheteDir {
                sufixos(
                    ts,
                    ExprV::Indice(Box::new(acc), Box::new(ind), unir_span_spec(span_vista(acc), ts[k].span)),
                    k + 1,
                )
            } else {
                None
            },
            None => None,
        }
    } else {
        Some((acc, j))
    }
}

/// A forma de um comando simples, com as expressões e os blocos como formas.
pub enum CmdV {
    Expressao(ExprV),
    DeclVar { nome: String, valor: ExprV, constante: bool, span: Span },
    Se(ExprV, Seq<CmdV>, Option<Seq<CmdV>>),
    Enquanto(ExprV, Seq<CmdV>),
    ParaNumerico { variavel: String, de: ExprV, ate: ExprV, passo: Option<ExprV>, corpo: Seq<CmdV> },
    ParaCada { variavel: String, iteravel: ExprV, corpo: Seq<CmdV> },
    Retorne(Option<ExprV>, Span),
    Pare(Span),
    Continue(Span),
    Lance(ExprV, Span),
    DeclFuncao { nome: String, params: Seq<ParamV>, corpo: Seq<CmdV>, span: Span },
    Tente { corpo: Seq<CmdV>, erro_nome: String, captura: Seq<CmdV>, finalmente: Option<Seq<CmdV>> },
    DeclClasse { nome: String, superclasse: Option<String>, membros: MembrosV, span: Span },
    Escolha { valor: ExprV, ramos: RamosV },
    DeclVarMulti { nomes: Seq<String>, valores: Seq<ExprV>, constante: bool, span: Span },
    AtribMulti { nomes: Seq<String>, valores: Seq<ExprV>, span: Span },
    Importe { caminho: String, alias: Option<String>, span: Span },
}

/// Os ramos de um `escolha`: os `caso`, cada um com seus valores e seu corpo,
/// e o `padrao`, se houver.
pub struct RamosV {
    pub casos: Seq<(Seq<ExprV>, Seq<CmdV>)>,
    pub padrao: Option<Seq<CmdV>>,
}

/// Cada `caso` tem os valores e o corpo da mesma posição.
pub open spec fn casos_correspondem(cs: Seq<CasoEscolha>, vs: Seq<(Seq<ExprV>, Seq<CmdV>)>) -> bool
    decreases vs, 0nat,
{
    cs.len() == vs.len() && forall|k: int|
        0 <= k < cs.len() ==> vistas_expr((#[trigger] cs[k]).valores@) == vs[k].0 && correspondem(cs[k].corpo@, vs[k].1)
}

/// Um parâmetro: o nome, a forma do valor padrão, se houver, e se é o
/// variádico (`...nome`).
pub struct ParamV {
    pub nome: String,
    pub padrao: Option<ExprV>,
    pub variadico: bool,
}

/// Parâmetros e corpo de um método, do construtor ou de uma função.
pub struct CorpoV {
    pub params: Seq<ParamV>,
    pub corpo: Seq<CmdV>,
}

/// Os membros de uma classe, como o analisador os guarda: o construtor (o
/// último declarado), os métodos, os métodos estáticos e os campos estáticos,
/// cada lista na ordem em que aparecem.
pub struct MembrosV {
    pub construtor: Option<CorpoV>,
    pub metodos: Seq<(String, CorpoV)>,
    pub estaticos: Seq<(String, CorpoV)>,
    pub campos: Seq<(String, ExprV)>,
}

/// Os parâmetros e o corpo do método têm as formas dadas.
pub open spec fn corpo_corresponde(m: MetodoDef, v: CorpoV) -> bool
    decreases v, 0nat,
{
    params_simples_de(m.params@, v.params) && correspondem(m.corpo@, v.corpo)
}

/// Cada método tem o nome e a forma da mesma posição.
pub open spec fn metodos_correspondem(ms: Seq<MetodoDef>, vs: Seq<(String, CorpoV)>) -> bool
    decreases vs, 0nat,
{
    ms.len() == vs.len() && forall|k: int|
        0 <= k < ms.len() ==> (#[trigger] ms[k]).nome == vs[k].0 && corpo_corresponde(ms[k], vs[k].1)
}

/// Os membros guardados têm as formas dadas.
pub open spec fn membros_correspondem(
    k: Option<MetodoDef>,
    ms: Seq<MetodoDef>,
    es: Seq<MetodoDef>,
    cs: Seq<(String, Expr)>,
    v: MembrosV,
) -> bool
    decreases v, 1nat,
{
    &&& match (k, v.construtor) {
        (None, None) => true,
        (Some(m), Some(c)) => corpo_corresponde(m, c),
        _ => false,
    }
    &&& metodos_correspondem(ms, v.metodos)
    &&& metodos_correspondem(es, v.estaticos)
    &&& campos_correspondem(cs, v.campos)
}

/// Cada campo estático tem o nome e a forma do valor da mesma posição.
pub open spec fn campos_correspondem(cs: Seq<(String, Expr)>, vs: Seq<(String, ExprV)>) -> bool {
    cs.len() == vs.len() && forall|k: int|
        0 <= k < cs.len() ==> (#[trigger] cs[k]).0 == vs[k].0 && vista_expr(cs[k].1) == vs[k].1
}

/// A expressão opcional tem a forma opcional dada.
pub open spec fn corresponde_opcional(e: Option<Expr>, v: Option<ExprV>) -> bool {
    match (e, v) {
        (None, None) => true,
        (Some(x), Some(y)) => vista_expr(x) == y,
        _ => false,
    }
}

/// O comando tem a forma dada.
pub open spec fn corresponde(c: Cmd, v: CmdV) -> bool
    decreases v, 1nat,
{
    match v {
        CmdV::Expressao(e) => c matches Cmd::Expressao(x) && vista_expr(x) == e,
        CmdV::DeclVar { nome, valor, constante, span } => c matches Cmd::DeclVar {
            nome: n,
            valor: x,
            constante: k,
            span: s,
        } && n == nome && vista_expr(x) == valor && k == constante && s == span,
        CmdV::Se(e, ent, sen) => c matches Cmd::Se { condicao, entao, senao } && vista_expr(condicao) == e
            && correspondem(entao@, ent) && match (senao, sen) {
            (None, None) => true,
            (Some(x), Some(y)) => correspondem(x@, y),
            _ => false,
        },
        CmdV::Enquanto(e, corpo) => c matches Cmd::Enquanto { condicao, corpo: cc } && vista_expr(condicao)
            == e && correspondem(cc@, corpo),
        CmdV::ParaNumerico { variavel, de, ate, passo, corpo } => c matches Cmd::ParaNumerico {
            variavel: nv,
            de: d,
            ate: a,
            passo: p,
            corpo: cc,
        } && nv == variavel && vista_expr(d) == de && vista_expr(a) == ate && corresponde_opcional(p, passo)
            && correspondem(cc@, corpo),
        CmdV::ParaCada { variavel, iteravel, corpo } => c matches Cmd::ParaCada {
            variavel: nv,
            iteravel: it,
            corpo: cc,
        } && nv == variavel && vista_expr(it) == iteravel && correspondem(cc@, corpo),
        CmdV::Retorne(valor, span) => c matches Cmd::Retorne(x, s) && s == span && corresponde_opcional(
            x,
            valor,
        ),
        CmdV::Pare(span) => c matches Cmd::Pare(s) && s == span,
        CmdV::Continue(span) => c matches Cmd::Continue(s) && s == span,
        CmdV::Lance(e, span) => c matches Cmd::Lance(x, s) && vista_expr(x) == e && s == span,
        CmdV::DeclFuncao { nome, params, corpo, span } => c matches Cmd::DeclFuncao {
            nome: n,
            params: ps,
            corpo: cc,
            span: s,
        } && n == nome && params_simples_de(ps@, params) && correspondem(cc@, corpo) && s == span,
        CmdV::Tente { corpo, erro_nome, captura, finalmente } => c matches Cmd::Tente {
            corpo: cc,
            erro_nome: n,
            captura: cap,
            finalmente: f,
        } && correspondem(cc@, corpo) && n == erro_nome && correspondem(cap@, captura) && match (f, finalmente) {
            (None, None) => true,
            (Some(x), Some(y)) => correspondem(x@, y),
            _ => false,
        },
        CmdV::DeclClasse { nome, superclasse, membros, span } => c matches Cmd::DeclClasse {
            nome: n,
            superclasse: sup,
            construtor: k,
            metodos: ms,
            metodos_estaticos: es,
            campos_estaticos: cs,
            span: s,
        } && n == nome && sup == superclasse && s == span && membros_correspondem(k, ms@, es@, cs@, membros),
        CmdV::DeclVarMulti { nomes, valores, constante, span } => c matches Cmd::DeclVarMulti {
            nomes: ns,
            valores: vs,
            constante: k,
            span: s,
        } && ns@ == nomes && vistas_expr(vs@) == valores && k == constante && s == span,
        CmdV::AtribMulti { nomes, valores, span } => c matches Cmd::AtribMulti { nomes: ns, valores: vs, span: s }
            && ns@ == nomes && vistas_expr(vs@) == valores && s == span,
        CmdV::Importe { caminho, alias, span } => c == Cmd::Importe { caminho, alias, span },
        CmdV::Escolha { valor, ramos } => c matches Cmd::Escolha { valor: x, casos, padrao } && vista_expr(x)
            == valor && casos_correspondem(casos@, ramos.casos) && match (padrao, ramos.padrao) {
            (None, None) => true,
            (Some(p), Some(q)) => correspondem(p@, q),
            _ => false,
        },
    }
}

/// Cada parâmetro tem o nome, o valor padrão e a marca de variádico da mesma
/// posição.
pub open spec fn params_simples_de(ps: Seq<Parametro>, vs: Seq<ParamV>) -> bool {
    &&& ps.len() == vs.len()
    &&& forall|k: int|
        0 <= k < ps.len() ==> (#[trigger] ps[k]).nome == vs[k].nome && corresponde_opcional(ps[k].padrao, vs[k].padrao)
            && ps[k].variadico == vs[k].variadico
}

/// Parâmetros com as formas dadas têm essas formas como vista.
proof fn lema_params_vista(ps: Vec<Parametro>, vs: Seq<ParamV>)
    requires
        params_simples_de(ps@, vs),
    ensures
        vista_params(ps) == vs,
{
    assert forall|k: int| 0 <= k < vs.len() implies #[trigger] vista_params(ps)[k] == vs[k] by {
        let p = ps@[k];
        assert(corresponde_opcional(p.padrao, vs[k].padrao));
        match p.padrao {
            Some(x) => assert(vs[k].padrao == Some(vista_expr(x))),
            None => assert(vs[k].padrao is None),
        }
    }
    assert(vista_params(ps) =~= vs);
}

/// Comandos que correspondem às formas dadas têm essas formas como vista.
proof fn lema_correspondem(cs: Vec<Cmd>, vs: Seq<CmdV>)
    requires
        correspondem(cs@, vs),
    ensures
        vista_cmds(cs) == vs,
    decreases vs, 1nat,
{
    assert forall|k: int| 0 <= k < vs.len() implies #[trigger] vista_cmds(cs)[k] == vs[k] by {
        lema_corresponde(cs@[k], vs[k]);
    }
    assert(vista_cmds(cs) =~= vs);
}

/// Um método que corresponde a um corpo tem esse corpo como vista.
proof fn lema_corpo_vista(m: MetodoDef, v: CorpoV)
    requires
        corpo_corresponde(m, v),
    ensures
        vista_corpo(m) == v,
    decreases v, 2nat,
{
    lema_params_vista(m.params, v.params);
    lema_correspondem(m.corpo, v.corpo);
}

/// Métodos que correspondem às formas dadas têm essas formas como vista.
proof fn lema_metodos_vista(ms: Vec<MetodoDef>, vs: Seq<(String, CorpoV)>)
    requires
        metodos_correspondem(ms@, vs),
    ensures
        vista_metodos(ms) == vs,
    decreases vs, 1nat,
{
    assert forall|k: int| 0 <= k < vs.len() implies #[trigger] vista_metodos(ms)[k] == vs[k] by {
        lema_corpo_vista(ms@[k], vs[k].1);
    }
    assert(vista_metodos(ms) =~= vs);
}

/// Ramos `caso` que correspondem às formas dadas têm essas formas como vista.
proof fn lema_casos_vista(cs: Vec<CasoEscolha>, vs: Seq<(Seq<ExprV>, Seq<CmdV>)>)
    requires
        casos_correspondem(cs@, vs),
    ensures
        vista_casos(cs) == vs,
    decreases vs, 1nat,
{
    assert forall|k: int| 0 <= k < vs.len() implies #[trigger] vista_casos(cs)[k] == vs[k] by {
        let c = cs@[k];
        lema_vista_valores(c.valores);
        lema_correspondem(c.corpo, vs[k].1);
        assert(vista_caso(c) == vs[k]);
    }
    assert(vista_casos(cs) =~= vs);
}

/// Um comando que corresponde a uma forma tem essa forma como vista.
proof fn lema_corresponde(c: Cmd, v: CmdV)
    requires
        corresponde(c, v),
    ensures
        vista_cmd(c) == v,
    decreases v, 0nat,
{
    match v {
        CmdV::Se(e, ent, sen) => {
            if let Cmd::Se { condicao, entao, senao } = c {
                lema_correspondem(entao, ent);
                match (senao, sen) {
                    (Some(x), Some(y)) => lema_correspondem(x, y),
                    _ => {},
                }
            }
        },
        CmdV::Enquanto(e, corpo) => {
            if let Cmd::Enquanto { corpo: cc, .. } = c {
                lema_correspondem(cc, corpo);
            }
        },
        CmdV::ParaNumerico { corpo, passo, .. } => {
            if let Cmd::ParaNumerico { corpo: cc, passo: p, .. } = c {
                lema_correspondem(cc, corpo);
                assert(corresponde_opcional(p, passo));
            }
        },
        CmdV::ParaCada { corpo, .. } => {
            if let Cmd::ParaCada { corpo: cc, .. } = c {
                lema_correspondem(cc, corpo);
            }
        },
        CmdV::Retorne(valor, _) => {
            if let Cmd::Retorne(x, _) = c {
                assert(corresponde_opcional(x, valor));
            }
        },
        CmdV::DeclFuncao { params, corpo, .. } => {
            if let Cmd::DeclFuncao { params: ps, corpo: cc, .. } = c {
                lema_params_vista(ps, params);
                lema_correspondem(cc, corpo);
            }
        },
        CmdV::Tente { corpo, captura, finalmente, .. } => {
            if let Cmd::Tente { corpo: cc, captura: cap, finalmente: f, .. } = c {
                lema_correspondem(cc, corpo);
                lema_correspondem(cap, captura);
                match (f, finalmente) {
                    (Some(x), Some(y)) => lema_correspondem(x, y),
                    _ => {},
                }
            }
        },
        CmdV::DeclClasse { membros, .. } => {
            if let Cmd::DeclClasse { construtor: k, metodos: ms, metodos_estaticos: es, campos_estaticos: cs, .. } = c {
                match (k, membros.construtor) {
                    (Some(m), Some(x)) => lema_corpo_vista(m, x),
                    _ => {},
                }
                lema_metodos_vista(ms, membros.metodos);
                lema_metodos_vista(es, membros.estaticos);
                assert(vista_campos(cs) =~= membros.campos);
            }
        },
        CmdV::Escolha { ramos, .. } => {
            if let Cmd::Escolha { casos, padrao, .. } = c {
                lema_casos_vista(casos, ramos.casos);
                match (padrao, ramos.padrao) {
                    (Some(p), Some(q)) => lema_correspondem(p, q),
                    _ => {},
                }
            }
        },
        CmdV::DeclVarMulti { .. } => {
            if let Cmd::DeclVarMulti { valores, .. } = c {
                lema_vista_valores(valores);
            }
        },
        CmdV::AtribMulti { .. } => {
            if let Cmd::AtribMulti { valores, .. } = c {
                lema_vista_valores(valores);
            }
        },
        _ => {},
    }
}

/// Os parâmetros depois do separador em `j` (o `(` ou uma vírgula), já com
/// `acc` lidos (`viu_padrao`: algum deles tem valor padrão): as formas e a
/// posição logo depois do `)`. Um parâmetro sem padrão depois de um com padrão
/// e um variádico que não é o último ficam de fora.
pub open spec fn params_de(ts: Seq<Token>, j: int, acc: Seq<ParamV>, viu_padrao: bool) -> Option<(Seq<ParamV>, int)>
    decreases ts.len() - j, 0nat,
{
    if !(0 <= j && j + 2 < ts.len()) {
        None
    } else if ts[j + 1].tipo is Reticencias {
        if j + 3 < ts.len() && ts[j + 2].tipo is Identificador && ts[j + 3].tipo is ParenDir {
            Some((acc.push(ParamV { nome: ts[j + 2].lexema, padrao: None, variadico: true }), j + 4))
        } else {
            None
        }
    } else if !(ts[j + 1].tipo is Identificador) {
        None
    } else if ts[j + 2].tipo is Igual {
        match expr_ate(ts, j + 3) {
            Some((e, k)) => {
                let p = ParamV { nome: ts[j + 1].lexema, padrao: Some(e), variadico: false };
                if j < k < ts.len() && ts[k].tipo is Virgula {
                    params_de(ts, k, acc.push(p), true)
                } else if ts[k].tipo is ParenDir {
                    Some((acc.push(p), k + 1))
                } else {
                    None
                }
            },
            None => None,
        }
    } else if viu_padrao {
        None
    } else {
        let p = ParamV { nome: ts[j + 1].lexema, padrao: None, variadico: false };
        if ts[j + 2].tipo is Virgula {
            params_de(ts, j + 2, acc.push(p), false)
        } else if ts[j + 2].tipo is ParenDir {
            Some((acc.push(p), j + 3))
        } else {
            None
        }
    }
}

/// Um passo da leitura dos parâmetros, caso a caso.
proof fn lema_params_de(ts: Seq<Token>, j: int, acc: Seq<ParamV>, viu: bool)
    requires
        params_de(ts, j, acc, viu) is Some,
    ensures
        0 <= j && j + 2 < ts.len(),
        ts[j + 1].tipo is Reticencias ==> j + 3 < ts.len() && ts[j + 2].tipo is Identificador && ts[j + 3].tipo is ParenDir
            && params_de(ts, j, acc, viu) == Some(
            (acc.push(ParamV { nome: ts[j + 2].lexema, padrao: None, variadico: true }), j + 4),
        ),
        !(ts[j + 1].tipo is Reticencias) ==> ts[j + 1].tipo is Identificador,
        ts[j + 1].tipo is Identificador && ts[j + 2].tipo is Igual ==> (expr_ate(ts, j + 3) matches Some((e, k)) && ({
            let p = ParamV { nome: ts[j + 1].lexema, padrao: Some(e), variadico: false };
            &&& ts[k].tipo is Virgula ==> params_de(ts, j, acc, viu) == params_de(ts, k, acc.push(p), true)
            &&& !(ts[k].tipo is Virgula) ==> ts[k].tipo is ParenDir && params_de(ts, j, acc, viu) == Some((acc.push(p), k + 1))
        })),
        ts[j + 1].tipo is Identificador && !(ts[j + 2].tipo is Igual) ==> !viu && ({
            let p = ParamV { nome: ts[j + 1].lexema, padrao: None, variadico: false };
            &&& ts[j + 2].tipo is Virgula ==> params_de(ts, j, acc, viu) == params_de(ts, j + 2, acc.push(p), false)
            &&& !(ts[j + 2].tipo is Virgula) ==> ts[j + 2].tipo is ParenDir && params_de(ts, j, acc, viu) == Some(
                (acc.push(p), j + 3),
            )
        }),
{
    reveal(expr_ate);
}

/// A lista de parâmetros depois do separador em `j` erra de um jeito que o
/// analisador recusa com K004: um parâmetro sem valor padrão depois de um com
/// padrão (`viu_padrao`), ou um variádico que não é o último.
pub open spec fn params_invalidos(ts: Seq<Token>, j: int, viu_padrao: bool) -> bool
    decreases ts.len() - j,
{
    if !(0 <= j && j + 2 < ts.len()) {
        false
    } else if ts[j + 1].tipo is Reticencias {
        j + 3 < ts.len() && ts[j + 2].tipo is Identificador && !(ts[j + 3].tipo is ParenDir)
    } else if !(ts[j + 1].tipo is Identificador) {
        false
    } else if ts[j + 2].tipo is Igual {
        match expr_ate(ts, j + 3) {
            Some((_, k)) => j < k < ts.len() && ts[k].tipo is Virgula && params_invalidos(ts, k, true),
            None => false,
        }
    } else if viu_padrao {
        true
    } else {
        ts[j + 2].tipo is Virgula && params_invalidos(ts, j + 2, false)
    }
}

/// A lista de parâmetros que começa em `i` (no `(`) é recusada com K004.
pub open spec fn params_invalidos_em(ts: Seq<Token>, i: int) -> bool {
    0 <= i && i + 1 < ts.len() && ts[i].tipo is ParenEsq && !(ts[i + 1].tipo is ParenDir) && params_invalidos(ts, i, false)
}

proof fn lema_params_invalidos(ts: Seq<Token>, j: int, viu: bool)
    requires
        params_invalidos(ts, j, viu),
    ensures
        0 <= j && j + 2 < ts.len(),
        ts[j + 1].tipo is Reticencias ==> j + 3 < ts.len() && ts[j + 2].tipo is Identificador && !(ts[j + 3].tipo is ParenDir),
        !(ts[j + 1].tipo is Reticencias) ==> ts[j + 1].tipo is Identificador,
        ts[j + 1].tipo is Identificador && ts[j + 2].tipo is Igual ==> (expr_ate(ts, j + 3) matches Some((_, k)) && (j < k
            && ts[k].tipo is Virgula && params_invalidos(ts, k, true))),
        ts[j + 1].tipo is Identificador && !(ts[j + 2].tipo is Igual) && !viu ==> ts[j + 2].tipo is Virgula
            && params_invalidos(ts, j + 2, false),
{
}

/// A lista `(a, b = valor, ...resto)` de parâmetros que começa em `i`.
#[verifier::opaque]
pub open spec fn params_simples(ts: Seq<Token>, i: int) -> Option<(Seq<ParamV>, int)>
    decreases ts.len() - i, 1nat,
{
    if 0 <= i && i + 1 < ts.len() && ts[i].tipo is ParenEsq {
        if ts[i + 1].tipo is ParenDir {
            Some((Seq::empty(), i + 2))
        } else {
            params_de(ts, i, Seq::empty(), false)
        }
    } else {
        None
    }
}

/// Os comandos de um bloco lido (vazio se não foi lido).
pub open spec fn cmds_bloco(b: Option<(Seq<CmdV>, int)>) -> Seq<CmdV> {
    match b {
        Some((cs, _)) => cs,
        None => Seq::empty(),
    }
}

/// A lista de parâmetros em `j` seguida do corpo, lido dentro de uma
/// função e fora de laços.
pub open spec fn corpo_simples(ts: Seq<Token>, j: int) -> Option<(CorpoV, int)>
    decreases ts.len() - j, 2nat,
{
    match params_simples(ts, j) {
        Some((ps, k)) => if j < k && k < ts.len() {
            match bloco_simples(ts, k, false, true) {
                Some((corpo, l)) => Some((CorpoV { params: ps, corpo }, l)),
                None => None,
            }
        } else {
            None
        },
        None => None,
    }
}

/// Um membro de classe lido.
pub enum MembroV {
    Construtor(CorpoV),
    Metodo(String, CorpoV),
    MetodoEstatico(String, CorpoV),
    CampoEstatico(String, ExprV),
}

/// O membro de classe que começa em `j` e onde ele termina: `construtor(...)
/// { }`, `metodo nome(...) { }`, `estatico metodo nome(...) { }` ou `estatico
/// nome = valor`.
pub open spec fn membro_simples(ts: Seq<Token>, j: int) -> Option<(MembroV, int)>
    decreases ts.len() - j, 0nat,
{
    if !(0 <= j && j + 3 < ts.len()) {
        None
    } else if ts[j].tipo is Construtor {
        match corpo_simples(ts, j + 1) {
            Some((v, l)) => Some((MembroV::Construtor(v), l)),
            None => None,
        }
    } else if ts[j].tipo is Metodo && ts[j + 1].tipo is Identificador {
        match corpo_simples(ts, j + 2) {
            Some((v, l)) => Some((MembroV::Metodo(ts[j + 1].lexema, v), l)),
            None => None,
        }
    } else if ts[j].tipo is Estatico && ts[j + 1].tipo is Metodo && ts[j + 2].tipo is Identificador {
        match corpo_simples(ts, j + 3) {
            Some((v, l)) => Some((MembroV::MetodoEstatico(ts[j + 2].lexema, v), l)),
            None => None,
        }
    } else if ts[j].tipo is Estatico && ts[j + 1].tipo is Identificador && ts[j + 2].tipo is Igual {
        match expr_ate(ts, j + 3) {
            Some((e, l)) => Some((MembroV::CampoEstatico(ts[j + 1].lexema, e), l)),
            None => None,
        }
    } else {
        None
    }
}

/// Os membros guardados depois de mais um: um construtor substitui o
/// anterior; os outros vão para o fim da lista do seu tipo.
pub open spec fn acrescenta(acc: MembrosV, m: MembroV) -> MembrosV {
    match m {
        MembroV::Construtor(v) => MembrosV { construtor: Some(v), ..acc },
        MembroV::Metodo(n, v) => MembrosV { metodos: acc.metodos.push((n, v)), ..acc },
        MembroV::MetodoEstatico(n, v) => MembrosV { estaticos: acc.estaticos.push((n, v)), ..acc },
        MembroV::CampoEstatico(n, e) => MembrosV { campos: acc.campos.push((n, e)), ..acc },
    }
}

/// Os membros de `j` até o `}` que fecha a classe, acrescentados a `acc`, e a
/// posição logo depois do `}`.
pub open spec fn membros_de(ts: Seq<Token>, j: int, acc: MembrosV) -> Option<(MembrosV, int)>
    decreases ts.len() - j, 1nat,
{
    if !(0 <= j < ts.len()) {
        None
    } else if ts[j].tipo is ChaveDir {
        Some((acc, j + 1))
    } else {
        match membro_simples(ts, j) {
            Some((m, l)) => if j < l && l < ts.len() {
                membros_de(ts, l, acrescenta(acc, m))
            } else {
                None
            },
            None => None,
        }
    }
}

/// Um passo da leitura dos membros: o membro em `j` e o resto a partir de onde
/// ele termina dão o mesmo resultado.
proof fn lema_membros_passo(ts: Seq<Token>, j: int, acc: MembrosV)
    requires
        membros_de(ts, j, acc) is Some,
        0 <= j < ts.len(),
        !(ts[j].tipo is ChaveDir),
    ensures
        membro_simples(ts, j) matches Some((m, l)) && j < l && l < ts.len() && membros_de(ts, l, acrescenta(acc, m))
            == membros_de(ts, j, acc),
{
}

/// Um corpo lido: os parâmetros, o bloco e onde termina.
proof fn lema_corpo_simples(ts: Seq<Token>, j: int)
    requires
        corpo_simples(ts, j) is Some,
    ensures
        (params_simples(ts, j) matches Some((ps, k)) && (j < k && k < ts.len() && (bloco_simples(ts, k, false, true)
            matches Some((c, l)) && corpo_simples(ts, j) == Some((CorpoV { params: ps, corpo: c }, l))))),
{
    broadcast use grupo_gramatica;

}

/// Um membro lido, caso a caso.
proof fn lema_membro_simples(ts: Seq<Token>, j: int)
    requires
        membro_simples(ts, j) is Some,
    ensures
        0 <= j && j + 3 < ts.len(),
        ts[j].tipo is Construtor || ts[j].tipo is Metodo || ts[j].tipo is Estatico,
        ts[j].tipo is Construtor ==> (corpo_simples(ts, j + 1) matches Some((v, l)) && membro_simples(ts, j) == Some(
            (MembroV::Construtor(v), l),
        )),
        ts[j].tipo is Metodo ==> ts[j + 1].tipo is Identificador && (corpo_simples(ts, j + 2) matches Some((v, l))
            && membro_simples(ts, j) == Some((MembroV::Metodo(ts[j + 1].lexema, v), l))),
        ts[j].tipo is Estatico && ts[j + 1].tipo is Metodo ==> ts[j + 2].tipo is Identificador && (corpo_simples(
            ts,
            j + 3,
        ) matches Some((v, l)) && membro_simples(ts, j) == Some((MembroV::MetodoEstatico(ts[j + 2].lexema, v), l))),
        ts[j].tipo is Estatico && !(ts[j + 1].tipo is Metodo) ==> ts[j + 1].tipo is Identificador && ts[j + 2].tipo is Igual
            && (expr_ate(ts, j + 3) matches Some((e, l)) && membro_simples(ts, j) == Some(
            (MembroV::CampoEstatico(ts[j + 1].lexema, e), l),
        )),
{
    broadcast use grupo_gramatica;

}

/// Onde termina a leitura dos membros: num `}`, nunca no fim do arquivo.
proof fn lema_membros_fim(ts: Seq<Token>, j: int, acc: MembrosV)
    requires
        membros_de(ts, j, acc) is Some,
    ensures
        0 <= j < ts.len(),
        !(ts[j].tipo is FimDeArquivo),
        ts[j].tipo is ChaveDir ==> membros_de(ts, j, acc) == Some((acc, j + 1)),
{
    if 0 <= j < ts.len() && ts[j].tipo is FimDeArquivo {
        assert(membro_simples(ts, j) is None);
    }
}

/// A classe lida por inteiro: os membros a partir do `{` e onde ela termina.
proof fn lema_classe_simples(ts: Seq<Token>, i: int)
    requires
        classe_simples(ts, i) is Some,
    ensures
        ({
            let herda = ts[i + 2].tipo is Herda;
            let j = if herda { i + 4 } else { i + 2 };
            let fim = membros_de(ts, j + 1, sem_membros());
            &&& 0 <= i && i + 4 < ts.len() && ts[i + 1].tipo is Identificador
            &&& herda ==> ts[i + 3].tipo is Identificador
            &&& ts[j].tipo is ChaveEsq
            &&& fim is Some
            &&& classe_simples(ts, i) == Some(
                (
                    CmdV::DeclClasse {
                        nome: ts[i + 1].lexema,
                        superclasse: if herda { Some(ts[i + 3].lexema) } else { None },
                        membros: fim.unwrap().0,
                        span: ts[i].span,
                    },
                    fim.unwrap().1,
                ),
            )
        }),
{
}

/// Guardar o membro lido mantém os membros guardados de acordo com as formas.
proof fn lema_acrescenta(
    mg: Membro,
    k0: Option<MetodoDef>,
    ms0: Seq<MetodoDef>,
    es0: Seq<MetodoDef>,
    cs0: Seq<(String, Expr)>,
    acc: MembrosV,
    k1: Option<MetodoDef>,
    ms1: Seq<MetodoDef>,
    es1: Seq<MetodoDef>,
    cs1: Seq<(String, Expr)>,
    v: MembroV,
)
    requires
        membros_correspondem(k0, ms0, es0, cs0, acc),
        membro_corresponde(mg, v),
        match mg {
            Membro::Construtor(m) => k1 == Some(m) && ms1 == ms0 && es1 == es0 && cs1 == cs0,
            Membro::Metodo(m) => k1 == k0 && ms1 == ms0.push(m) && es1 == es0 && cs1 == cs0,
            Membro::MetodoEstatico(m) => k1 == k0 && ms1 == ms0 && es1 == es0.push(m) && cs1 == cs0,
            Membro::CampoEstatico(n, e) => k1 == k0 && ms1 == ms0 && es1 == es0 && cs1 == cs0.push((n, e)),
        },
    ensures
        membros_correspondem(k1, ms1, es1, cs1, acrescenta(acc, v)),
{
    match mg {
        Membro::Metodo(m) => {
            assert forall|k: int| 0 <= k < ms1.len() implies (#[trigger] ms1[k]).nome == acrescenta(acc, v).metodos[k].0
                && corpo_corresponde(ms1[k], acrescenta(acc, v).metodos[k].1) by {
                if k < ms0.len() {
                    assert(ms1[k] == ms0[k]);
                }
            }
        },
        Membro::MetodoEstatico(m) => {
            assert forall|k: int| 0 <= k < es1.len() implies (#[trigger] es1[k]).nome == acrescenta(acc, v).estaticos[k].0
                && corpo_corresponde(es1[k], acrescenta(acc, v).estaticos[k].1) by {
                if k < es0.len() {
                    assert(es1[k] == es0[k]);
                }
            }
        },
        Membro::CampoEstatico(n, e) => {
            assert forall|k: int| 0 <= k < cs1.len() implies (#[trigger] cs1[k]).0 == acrescenta(acc, v).campos[k].0
                && vista_expr(cs1[k].1) == acrescenta(acc, v).campos[k].1 by {
                if k < cs0.len() {
                    assert(cs1[k] == cs0[k]);
                }
            }
        },
        _ => {},
    }
}

/// O membro lido tem a forma dada.
spec fn membro_corresponde(m: Membro, v: MembroV) -> bool {
    match (m, v) {
        (Membro::Construtor(d), MembroV::Construtor(c)) => corpo_corresponde(d, c),
        (Membro::Metodo(d), MembroV::Metodo(n, c)) => d.nome == n && corpo_corresponde(d, c),
        (Membro::MetodoEstatico(d), MembroV::MetodoEstatico(n, c)) => d.nome == n && corpo_corresponde(d, c),
        (Membro::CampoEstatico(n, e), MembroV::CampoEstatico(n2, e2)) => n == n2 && vista_expr(e) == e2,
        _ => false,
    }
}

/// Um membro de classe lido pelo analisador.
enum Membro {
    Construtor(MetodoDef),
    Metodo(MetodoDef),
    MetodoEstatico(MetodoDef),
    CampoEstatico(String, Expr),
}

/// Nenhum membro.
pub open spec fn sem_membros() -> MembrosV {
    MembrosV { construtor: None, metodos: Seq::empty(), estaticos: Seq::empty(), campos: Seq::empty() }
}

/// A declaração `classe Nome [herda Base] { membros }` que começa em `i`.
pub open spec fn classe_simples(ts: Seq<Token>, i: int) -> Option<(CmdV, int)>
    decreases ts.len() - i, 0nat,
{
    if 0 <= i && i + 4 < ts.len() && ts[i + 1].tipo is Identificador {
        let herda = ts[i + 2].tipo is Herda;
        let j = if herda { i + 4 } else { i + 2 };
        if (herda ==> ts[i + 3].tipo is Identificador) && ts[j].tipo is ChaveEsq {
            match membros_de(ts, j + 1, sem_membros()) {
                Some((ms, k)) => Some(
                    (
                        CmdV::DeclClasse {
                            nome: ts[i + 1].lexema,
                            superclasse: if herda { Some(ts[i + 3].lexema) } else { None },
                            membros: ms,
                            span: ts[i].span,
                        },
                        k,
                    ),
                ),
                None => None,
            }
        } else {
            None
        }
    } else {
        None
    }
}

/// As expressões a partir de `j`, separadas por vírgulas (os valores de um
/// `caso`, o lado direito de um desempacotamento), já com `acc` lidas, e a
/// posição logo depois da última.
pub open spec fn valores_de(ts: Seq<Token>, j: int, acc: Seq<ExprV>) -> Option<(Seq<ExprV>, int)>
    decreases ts.len() - j, 17nat,
{
    match expr_ate(ts, j) {
        Some((e, k)) => if j < k < ts.len() && ts[k].tipo is Virgula {
            valores_de(ts, k + 1, acc.push(e))
        } else {
            Some((acc.push(e), k))
        },
        None => None,
    }
}

/// O ramo `caso v1, v2 { ... }` ou `padrao { ... }` que começa em `j`,
/// acrescentado a `acc`, e onde ele termina. Um segundo `padrao` fica de fora.
pub open spec fn ramo_simples(ts: Seq<Token>, j: int, acc: RamosV, laco: bool, funcao: bool) -> Option<
    (RamosV, int),
>
    decreases ts.len() - j, 0nat,
{
    if !(0 <= j && j + 1 < ts.len()) {
        None
    } else if ts[j].tipo is Caso {
        match valores_de(ts, j + 1, Seq::empty()) {
            Some((vs, k)) => if j < k && k < ts.len() {
                match bloco_simples(ts, k, laco, funcao) {
                    Some((c, l)) => Some((RamosV { casos: acc.casos.push((vs, c)), ..acc }, l)),
                    None => None,
                }
            } else {
                None
            },
            None => None,
        }
    } else if ts[j].tipo is Padrao && acc.padrao is None {
        match bloco_simples(ts, j + 1, laco, funcao) {
            Some((c, l)) => Some((RamosV { padrao: Some(c), ..acc }, l)),
            None => None,
        }
    } else {
        None
    }
}

/// Os ramos de `j` até o `}` que fecha o `escolha`, acrescentados a `acc`, e a
/// posição logo depois do `}`.
pub open spec fn ramos_de(ts: Seq<Token>, j: int, acc: RamosV, laco: bool, funcao: bool) -> Option<(RamosV, int)>
    decreases ts.len() - j, 1nat,
{
    if !(0 <= j < ts.len()) {
        None
    } else if ts[j].tipo is ChaveDir {
        Some((acc, j + 1))
    } else {
        match ramo_simples(ts, j, acc, laco, funcao) {
            Some((a, l)) => if j < l && l < ts.len() {
                ramos_de(ts, l, a, laco, funcao)
            } else {
                None
            },
            None => None,
        }
    }
}

/// Nenhum ramo.
pub open spec fn sem_ramos() -> RamosV {
    RamosV { casos: Seq::empty(), padrao: None }
}

/// O `escolha valor { ramos }` que começa em `i`.
pub open spec fn escolha_simples(ts: Seq<Token>, i: int, laco: bool, funcao: bool) -> Option<(CmdV, int)>
    decreases ts.len() - i, 0nat,
{
    if !(0 <= i < ts.len()) {
        None
    } else {
        match expr_ate(ts, i + 1) {
            Some((e, j)) => if i < j && j + 1 < ts.len() && ts[j].tipo is ChaveEsq {
                match ramos_de(ts, j + 1, sem_ramos(), laco, funcao) {
                    Some((rs, k)) => Some((CmdV::Escolha { valor: e, ramos: rs }, k)),
                    None => None,
                }
            } else {
                None
            },
            None => None,
        }
    }
}

/// O `escolha` lido por inteiro: o valor, os ramos e onde termina.
proof fn lema_escolha_simples(ts: Seq<Token>, i: int, laco: bool, fun: bool)
    requires
        escolha_simples(ts, i, laco, fun) is Some,
    ensures
        (expr_ate(ts, i + 1) matches Some((e, j)) && (i < j && j + 1 < ts.len() && ts[j].tipo is ChaveEsq && (ramos_de(
            ts,
            j + 1,
            sem_ramos(),
            laco,
            fun,
        ) matches Some((rs, k)) && escolha_simples(ts, i, laco, fun) == Some((CmdV::Escolha { valor: e, ramos: rs }, k))))),
{
    passo_escolha_simples(ts, i, laco, fun);
}

/// Um passo da leitura dos ramos: o ramo em `j` e o resto a partir de onde ele
/// termina dão o mesmo resultado.
proof fn lema_ramos_passo(ts: Seq<Token>, j: int, acc: RamosV, laco: bool, fun: bool)
    requires
        ramos_de(ts, j, acc, laco, fun) is Some,
        0 <= j < ts.len(),
        !(ts[j].tipo is ChaveDir),
    ensures
        (ramo_simples(ts, j, acc, laco, fun) matches Some((a, l)) && (j < l && l < ts.len() && ramos_de(ts, l, a, laco, fun)
            == ramos_de(ts, j, acc, laco, fun))),
        j + 1 < ts.len(),
        ts[j].tipo is Caso ==> (valores_de(ts, j + 1, Seq::empty()) matches Some((vs, k)) && (j < k && k < ts.len() && (
        bloco_simples(ts, k, laco, fun) matches Some((c, l)) && ramo_simples(ts, j, acc, laco, fun) == Some(
            (RamosV { casos: acc.casos.push((vs, c)), ..acc }, l),
        )))),
        !(ts[j].tipo is Caso) ==> ts[j].tipo is Padrao && acc.padrao is None && (bloco_simples(ts, j + 1, laco, fun) matches Some(
            (c, l),
        ) && ramo_simples(ts, j, acc, laco, fun) == Some((RamosV { padrao: Some(c), ..acc }, l))),
{
}

/// Onde termina a leitura dos ramos: num `}`, nunca no fim do arquivo.
proof fn lema_ramos_fim(ts: Seq<Token>, j: int, acc: RamosV, laco: bool, fun: bool)
    requires
        ramos_de(ts, j, acc, laco, fun) is Some,
    ensures
        0 <= j < ts.len(),
        !(ts[j].tipo is FimDeArquivo),
        ts[j].tipo is ChaveDir ==> ramos_de(ts, j, acc, laco, fun) == Some((acc, j + 1)),
{
    if 0 <= j < ts.len() && ts[j].tipo is FimDeArquivo {
        assert(ramo_simples(ts, j, acc, laco, fun) is None);
    }
}

/// O `tente` lido por inteiro: o bloco, a captura e onde termina.
proof fn lema_tente_simples(ts: Seq<Token>, i: int, laco: bool, fun: bool)
    requires
        tente_simples(ts, i, laco, fun) is Some,
    ensures
        (bloco_simples(ts, i + 1, laco, fun) matches Some((corpo, j)) && (i < j && j < ts.len() && (captura_simples(
            ts,
            j,
            laco,
            fun,
        ) matches Some((n, cap, fin, k)) && tente_simples(ts, i, laco, fun) == Some(
            (CmdV::Tente { corpo, erro_nome: n, captura: cap, finalmente: fin }, k),
        )))),
{
}

/// A captura lida por inteiro.
proof fn lema_captura_simples(ts: Seq<Token>, j: int, laco: bool, fun: bool)
    requires
        captura_simples(ts, j, laco, fun) is Some,
    ensures
        0 <= j && j + 4 < ts.len() && ts[j].tipo is Capture && ts[j + 1].tipo is ParenEsq && ts[j + 2].tipo is Identificador
            && ts[j + 3].tipo is ParenDir,
        (bloco_simples(ts, j + 4, laco, fun) matches Some((cap, k)) && (j < k && k < ts.len() && (!(ts[k].tipo is Finalmente)
            ==> captura_simples(ts, j, laco, fun) == Some((ts[j + 2].lexema, cap, None::<Seq<CmdV>>, k))) && (
        ts[k].tipo is Finalmente ==> (bloco_simples(ts, k + 1, laco, fun) matches Some((f, l)) && captura_simples(
            ts,
            j,
            laco,
            fun,
        ) == Some((ts[j + 2].lexema, cap, Some(f), l)))))),
{
}

/// Um `tente` cujos blocos correspondem às formas dadas corresponde à forma do `tente`.
proof fn lema_corresponde_tente(
    c: Cmd,
    corpo: Seq<CmdV>,
    erro_nome: String,
    captura: Seq<CmdV>,
    finalmente: Option<Seq<CmdV>>,
)
    requires
        c matches Cmd::Tente { corpo: cc, erro_nome: n, captura: cap, finalmente: f } && correspondem(cc@, corpo)
            && n == erro_nome && correspondem(cap@, captura) && match (f, finalmente) {
            (None, None) => true,
            (Some(x), Some(y)) => correspondem(x@, y),
            _ => false,
        },
    ensures
        corresponde(c, CmdV::Tente { corpo, erro_nome, captura, finalmente }),
{
}

/// O `capture (nome) { ... }`, com o `finalmente { ... }` opcional, que
/// começa em `j`: o nome, os blocos e onde termina.
pub open spec fn captura_simples(ts: Seq<Token>, j: int, laco: bool, funcao: bool) -> Option<
    (String, Seq<CmdV>, Option<Seq<CmdV>>, int),
>
    decreases ts.len() - j, 0nat,
{
    if 0 <= j && j + 4 < ts.len() && ts[j].tipo is Capture && ts[j + 1].tipo is ParenEsq && ts[j + 2].tipo is Identificador
        && ts[j + 3].tipo is ParenDir {
        match bloco_simples(ts, j + 4, laco, funcao) {
            Some((captura, k)) => if !(j < k && k < ts.len()) {
                None
            } else if ts[k].tipo is Finalmente {
                match bloco_simples(ts, k + 1, laco, funcao) {
                    Some((fim, l)) => Some((ts[j + 2].lexema, captura, Some(fim), l)),
                    None => None,
                }
            } else {
                Some((ts[j + 2].lexema, captura, None, k))
            },
            None => None,
        }
    } else {
        None
    }
}

/// O `tente { ... } capture (nome) { ... }`, com o `finalmente { ... }`
/// opcional, que começa em `i`; os três blocos no mesmo contexto do comando.
pub open spec fn tente_simples(ts: Seq<Token>, i: int, laco: bool, funcao: bool) -> Option<(CmdV, int)>
    decreases ts.len() - i, 0nat,
{
    if !(0 <= i < ts.len()) {
        None
    } else {
        match bloco_simples(ts, i + 1, laco, funcao) {
            Some((corpo, j)) => if i < j && j < ts.len() {
                match captura_simples(ts, j, laco, funcao) {
                    Some((erro_nome, captura, finalmente, k)) => Some(
                        (CmdV::Tente { corpo, erro_nome, captura, finalmente }, k),
                    ),
                    None => None,
                }
            } else {
                None
            },
            None => None,
        }
    }
}

/// A declaração `funcao nome(a, b = 1, ...resto) { ... }` que começa em `i`,
/// com o corpo lido dentro de uma função e fora de laços.
pub open spec fn funcao_simples(ts: Seq<Token>, i: int) -> Option<(CmdV, int)>
    decreases ts.len() - i, 0nat,
{
    if 0 <= i && i + 2 < ts.len() && ts[i + 1].tipo is Identificador {
        match params_simples(ts, i + 2) {
            Some((ps, j)) => if i < j && j < ts.len() {
                match bloco_simples(ts, j, false, true) {
                    Some((corpo, k)) => Some(
                        (CmdV::DeclFuncao { nome: ts[i + 1].lexema, params: ps, corpo, span: ts[i].span }, k),
                    ),
                    None => None,
                }
            } else {
                None
            },
            None => None,
        }
    } else {
        None
    }
}

/// Cada comando tem a forma da mesma posição.
pub open spec fn correspondem(cs: Seq<Cmd>, vs: Seq<CmdV>) -> bool
    decreases vs, 0nat,
{
    cs.len() == vs.len() && forall|k: int| 0 <= k < cs.len() ==> corresponde(#[trigger] cs[k], vs[k])
}

/// Uma expressão simples que começa em `i` e termina antes do fim dos tokens.
#[verifier::opaque]
pub open spec fn expr_ate(ts: Seq<Token>, i: int) -> Option<(ExprV, int)>
    decreases ts.len() - i, 16nat,
{
    match expr_simples(ts, i, 14) {
        Some((e, j)) => if i < j < ts.len() {
            Some((e, j))
        } else {
            None
        },
        None => None,
    }
}

/// A forma do `se` (ou `senaose`) que começa em `i`, com os ramos
/// `senaose`/`senao se` encadeados como um `se` dentro do `senao`.
pub open spec fn se_simples(ts: Seq<Token>, i: int, laco: bool, funcao: bool) -> Option<(CmdV, int)>
    decreases ts.len() - i, 0nat,
{
    if !(0 <= i < ts.len()) {
        None
    } else {
        match expr_ate(ts, i + 1) {
            Some((e, j)) => if !(i < j < ts.len()) {
                None
            } else {
                match bloco_simples(ts, j, laco, funcao) {
                Some((ent, k)) => if !(j < k < ts.len()) {
                    None
                } else if ts[k].tipo is SenaoSe {
                    match se_simples(ts, k, laco, funcao) {
                        Some((c, l)) => Some((CmdV::Se(e, ent, Some(seq![c])), l)),
                        None => None,
                    }
                } else if ts[k].tipo is Senao {
                    if k + 1 < ts.len() && ts[k + 1].tipo is Se {
                        match se_simples(ts, k + 1, laco, funcao) {
                            Some((c, l)) => Some((CmdV::Se(e, ent, Some(seq![c])), l)),
                            None => None,
                        }
                    } else {
                        match bloco_simples(ts, k + 1, laco, funcao) {
                            Some((sb, l)) => Some((CmdV::Se(e, ent, Some(sb)), l)),
                            None => None,
                        }
                    }
                } else {
                    Some((CmdV::Se(e, ent, None), k))
                },
                None => None,
                }
            },
            None => None,
        }
    }
}

/// A declaração `var`/`constante nome = expressão simples` que começa em `i`.
#[verifier::opaque]
pub open spec fn decl_simples(ts: Seq<Token>, i: int) -> Option<(CmdV, int)>
    decreases ts.len() - i, 16nat,
{
    if 0 <= i && i + 2 < ts.len() && (ts[i].tipo is Var || ts[i].tipo is Constante) && ts[i + 1].tipo is Identificador
        && ts[i + 2].tipo is Virgula {
        match multi_simples(ts, i + 2, ts[i + 1].lexema) {
            Some((nomes, valores, l)) => Some(
                (CmdV::DeclVarMulti { nomes, valores, constante: ts[i].tipo is Constante, span: ts[i].span }, l),
            ),
            None => None,
        }
    } else if 0 <= i && i + 2 < ts.len() && (ts[i].tipo is Var || ts[i].tipo is Constante) && ts[i + 1].tipo is Identificador
        && ts[i + 2].tipo is Igual {
        match expr_simples(ts, i + 3, 14) {
            Some((v, j)) => Some(
                (
                    CmdV::DeclVar {
                        nome: ts[i + 1].lexema,
                        valor: v,
                        constante: ts[i].tipo is Constante,
                        span: unir_span_spec(ts[i].span, span_vista(v)),
                    },
                    j,
                ),
            ),
            None => None,
        }
    } else {
        None
    }
}

/// O `enquanto condição { ... }` que começa em `i`.
pub open spec fn enquanto_simples(ts: Seq<Token>, i: int, funcao: bool) -> Option<(CmdV, int)>
    decreases ts.len() - i, 0nat,
{
    if !(0 <= i < ts.len()) {
        None
    } else {
        match expr_ate(ts, i + 1) {
            Some((e, j)) => if i < j < ts.len() {
                match bloco_simples(ts, j, true, funcao) {
                    Some((corpo, k)) => Some((CmdV::Enquanto(e, corpo), k)),
                    None => None,
                }
            } else {
                None
            },
            None => None,
        }
    }
}

/// O `para cada x em e { ... }` que começa em `i`.
pub open spec fn para_cada_simples(ts: Seq<Token>, i: int, funcao: bool) -> Option<(CmdV, int)>
    decreases ts.len() - i, 0nat,
{
    if 0 <= i && i + 4 < ts.len() && ts[i + 2].tipo is Identificador && ts[i + 3].tipo is Em {
        match expr_ate(ts, i + 4) {
            Some((it, j)) => if i < j < ts.len() {
                match bloco_simples(ts, j, true, funcao) {
                    Some((corpo, k)) => Some((CmdV::ParaCada { variavel: ts[i + 2].lexema, iteravel: it, corpo }, k)),
                    None => None,
                }
            } else {
                None
            },
            None => None,
        }
    } else {
        None
    }
}

/// Os limites `de a ate b [passo p]` a partir do `de` em `p`: `a`, `b`, o
/// passo, se houver, e a posição seguinte.
#[verifier::opaque]
pub open spec fn limites_de(ts: Seq<Token>, p: int) -> Option<(ExprV, ExprV, Option<ExprV>, int)>
    decreases ts.len() - p, 0nat,
{
    if !(0 <= p < ts.len() && ts[p].tipo is De) {
        None
    } else {
        match expr_ate(ts, p + 1) {
            Some((de, j)) => if !(p < j < ts.len() && ts[j].tipo is Ate) {
                None
            } else {
                match expr_ate(ts, j + 1) {
                    Some((ate, k)) => if j < k < ts.len() && ts[k].tipo is Passo {
                        match expr_ate(ts, k + 1) {
                            Some((q, l)) => Some((de, ate, Some(q), l)),
                            None => None,
                        }
                    } else {
                        Some((de, ate, None, k))
                    },
                    None => None,
                }
            },
            None => None,
        }
    }
}

/// Os limites de um `para i de a ate b [passo p]` que começa em `i`: `a`, `b`,
/// o passo, se houver, e a posição do bloco.
#[verifier::opaque]
pub open spec fn limites_para(ts: Seq<Token>, i: int) -> Option<(ExprV, ExprV, Option<ExprV>, int)>
    decreases ts.len() - i, 0nat,
{
    if 0 <= i && i + 3 < ts.len() && ts[i + 1].tipo is Identificador {
        limites_de(ts, i + 2)
    } else {
        None
    }
}

/// O `para i de a ate b [passo p] { ... }` que começa em `i`.
pub open spec fn para_num_simples(ts: Seq<Token>, i: int, funcao: bool) -> Option<(CmdV, int)>
    decreases ts.len() - i, 1nat,
{
    match limites_para(ts, i) {
        Some((de, ate, passo, l)) => if i < l < ts.len() {
            match bloco_simples(ts, l, true, funcao) {
                Some((corpo, m)) => Some(
                    (CmdV::ParaNumerico { variavel: ts[i + 1].lexema, de, ate, passo, corpo }, m),
                ),
                None => None,
            }
        } else {
            None
        },
        None => None,
    }
}

/// O `para cada x em e { ... }` ou `para i de a ate b [passo p] { ... }` que
/// começa em `i`.
pub open spec fn para_simples(ts: Seq<Token>, i: int, funcao: bool) -> Option<(CmdV, int)> {
    if 0 <= i && i + 1 < ts.len() && ts[i + 1].tipo is Cada {
        para_cada_simples(ts, i, funcao)
    } else {
        para_num_simples(ts, i, funcao)
    }
}

/// O `retorne [valor]` que começa em `i`, válido só dentro de uma função.
#[verifier::opaque]
pub open spec fn retorne_simples(ts: Seq<Token>, i: int, funcao: bool) -> Option<(CmdV, int)>
    decreases ts.len() - i, 0nat,
{
    if !funcao || !(0 <= i && i + 1 < ts.len()) {
        None
    } else if ts[i + 1].tipo is ChaveDir || ts[i + 1].tipo is FimDeArquivo {
        Some((CmdV::Retorne(None, ts[i].span), i + 1))
    } else {
        match expr_ate(ts, i + 1) {
            Some((e, j)) => Some((CmdV::Retorne(Some(e), ts[i].span), j)),
            None => None,
        }
    }
}

/// O `lance expressão` que começa em `i`.
#[verifier::opaque]
pub open spec fn lance_simples(ts: Seq<Token>, i: int) -> Option<(CmdV, int)>
    decreases ts.len() - i, 0nat,
{
    if !(0 <= i < ts.len()) {
        None
    } else {
        match expr_ate(ts, i + 1) {
            Some((e, j)) => Some((CmdV::Lance(e, ts[i].span), j)),
            None => None,
        }
    }
}

/// Os nomes a partir de `j`, cada um depois de uma vírgula, já com `acc`
/// lidos, e a posição logo depois do último.
pub open spec fn nomes_multi(ts: Seq<Token>, j: int, acc: Seq<String>) -> Option<(Seq<String>, int)>
    decreases ts.len() - j,
{
    if !(0 <= j < ts.len()) {
        None
    } else if ts[j].tipo is Virgula {
        if j + 1 < ts.len() && ts[j + 1].tipo is Identificador {
            nomes_multi(ts, j + 2, acc.push(ts[j + 1].lexema))
        } else {
            None
        }
    } else {
        Some((acc, j))
    }
}

/// O resto de `primeiro, b, c = x, y, z` a partir da vírgula em `j`: os
/// nomes, os valores e a posição logo depois do último valor.
#[verifier::opaque]
pub open spec fn multi_simples(ts: Seq<Token>, j: int, primeiro: String) -> Option<(Seq<String>, Seq<ExprV>, int)>
    decreases ts.len() - j, 0nat,
{
    match nomes_multi(ts, j, seq![primeiro]) {
        Some((nomes, k)) => if j <= k < ts.len() && ts[k].tipo is Igual {
            match valores_de(ts, k + 1, Seq::empty()) {
                Some((valores, l)) => Some((nomes, valores, l)),
                None => None,
            }
        } else {
            None
        },
        None => None,
    }
}

/// A expressão simples usada como comando que começa em `i`; se ela é um nome
/// seguido de vírgula, a atribuição múltipla `a, b = x, y`.
#[verifier::opaque]
pub open spec fn expressao_cmd(ts: Seq<Token>, i: int) -> Option<(CmdV, int)>
    decreases ts.len() - i, 16nat,
{
    match expr_simples(ts, i, 14) {
        Some((e, j)) => if i < j < ts.len() && ts[j].tipo is Virgula && e matches ExprV::Folha(Expr::Variavel(..)) {
            match multi_simples(ts, j, e->Folha_0->Variavel_0) {
                Some((nomes, valores, l)) => Some((CmdV::AtribMulti { nomes, valores, span: e->Folha_0->Variavel_1 }, l)),
                None => None,
            }
        } else {
            Some((CmdV::Expressao(e), j))
        },
        None => None,
    }
}

/// O `importe "caminho"` (com `como nome`, se houver) que começa em `i`.
pub open spec fn importe_simples(ts: Seq<Token>, i: int) -> Option<(CmdV, int)> {
    if 0 <= i && i + 2 < ts.len() && ts[i].tipo is Importe && ts[i + 1].tipo is Texto {
        if ts[i + 2].tipo is Como {
            if i + 3 < ts.len() && ts[i + 3].tipo is Identificador {
                Some((CmdV::Importe { caminho: ts[i + 1].lexema, alias: Some(ts[i + 3].lexema), span: ts[i].span }, i + 4))
            } else {
                None
            }
        } else {
            Some((CmdV::Importe { caminho: ts[i + 1].lexema, alias: None, span: ts[i].span }, i + 2))
        }
    } else {
        None
    }
}

/// O erro que a declaração em `i` certamente dá, como código, posição e onde
/// a leitura para: `pare`/`continue` fora de laço e `retorne` fora de função
/// (K016, no próprio token), `var x = ` seguido do que não começa expressão
/// (K008, nesse token) e o primeiro desses erros no bloco de um `se`, de um
/// `enquanto` ou de uma função.
#[verifier::opaque]
pub open spec fn rejeicao(ts: Seq<Token>, i: int, laco: bool, funcao: bool) -> Option<(Seq<char>, Span, int)>
    decreases ts.len() - i, 0nat,
{
    if !(0 <= i && i + 1 < ts.len()) {
        None
    } else if (ts[i].tipo is Pare || ts[i].tipo is Continue) && !laco {
        Some((formato_codigo(16), ts[i].span, i + 1))
    } else if ts[i].tipo is Retorne && !funcao {
        Some((formato_codigo(16), ts[i].span, i + 1))
    } else if (ts[i].tipo is Var || ts[i].tipo is Constante) && i + 3 < ts.len() && ts[i + 1].tipo is Identificador
        && ts[i + 2].tipo is Igual && sem_expressao(ts[i + 3].tipo) {
        Some((formato_codigo(8), ts[i + 3].span, i + 3))
    } else if ts[i].tipo is Se || ts[i].tipo is Enquanto {
        match expr_ate(ts, i + 1) {
            Some((_, j)) => if i < j < ts.len() {
                erro_bloco(ts, j, laco || ts[i].tipo is Enquanto, funcao)
            } else {
                None
            },
            None => None,
        }
    } else if ts[i].tipo is Funcao && i + 2 < ts.len() && ts[i + 1].tipo is Identificador {
        match params_simples(ts, i + 2) {
            Some((_, k)) => if i < k && k + 1 < ts.len() && ts[k].tipo is ChaveEsq {
                erro_seq(ts, k + 1, false, true)
            } else {
                None
            },
            None => None,
        }
    } else {
        None
    }
}

/// O primeiro erro certo na sequência de declarações a partir de `j`, até o
/// `}` ou o fim: as declarações do fragmento simples que vêm antes passam.
pub open spec fn erro_seq(ts: Seq<Token>, j: int, laco: bool, funcao: bool) -> Option<(Seq<char>, Span, int)>
    decreases ts.len() - j, 1nat,
{
    if !(0 <= j < ts.len()) || ts[j].tipo is ChaveDir || ts[j].tipo is FimDeArquivo {
        None
    } else {
        match rejeicao(ts, j, laco, funcao) {
            Some(x) => Some(x),
            None => match cmd_simples(ts, j, laco, funcao) {
                Some((_, k)) => if j < k && k < ts.len() {
                    erro_seq(ts, k, laco, funcao)
                } else {
                    None
                },
                None => None,
            },
        }
    }
}

/// Um token onde a recuperação depois de um erro recomeça.
pub open spec fn eh_sincronia(t: TipoToken) -> bool {
    t is Var || t is Constante || t is Funcao || t is Classe || t is Importe || t is Se || t is Enquanto
        || t is Para || t is Retorne || t is Tente || t is Lance
}

/// A primeira posição a partir de `q` com um token de recomeço ou o fim.
pub open spec fn sincronia(ts: Seq<Token>, q: int) -> int
    decreases ts.len() - q,
{
    if !(0 <= q < ts.len()) || ts[q].tipo is FimDeArquivo || eh_sincronia(ts[q].tipo) {
        q
    } else {
        sincronia(ts, q + 1)
    }
}

/// O comando simples em `i`, visto só pelos erros conhecidos.
#[verifier::opaque]
pub open spec fn passo_simples(ts: Seq<Token>, i: int, laco: bool, funcao: bool) -> Option<(CmdV, int)> {
    cmd_simples(ts, i, laco, funcao)
}

proof fn lema_passo_simples(ts: Seq<Token>, i: int, laco: bool, funcao: bool)
    ensures
        passo_simples(ts, i, laco, funcao) == cmd_simples(ts, i, laco, funcao),
{
    reveal(passo_simples);
}

/// Onde a leitura recomeça depois de um erro que parou em `p`: descarta ao
/// menos esse token e segue até um token de recomeço ou o fim.
pub open spec fn retomada(ts: Seq<Token>, p: int) -> int {
    if 0 <= p < ts.len() && !(ts[p].tipo is FimDeArquivo) {
        sincronia(ts, p + 1)
    } else {
        p
    }
}

/// Os erros relatados começam pelos erros certos; acompanhando, ainda não
/// passaram deles; sem acompanhar, já passaram e a leitura não foi até o fim.
#[verifier::opaque]
pub open spec fn prefixo_ok(ek: (Seq<(Seq<char>, Span)>, bool), es: Seq<Diagnostico>, seguindo: bool) -> bool {
    &&& forall|k: int|
        0 <= k < es.len() && k < ek.0.len() ==> (#[trigger] es[k]).codigo@ == ek.0[k].0 && es[k].span == ek.0[k].1
    &&& seguindo ==> es.len() <= ek.0.len()
    &&& !seguindo ==> es.len() >= ek.0.len() && !ek.1
}

/// Acompanhando, os erros certos a partir de `p` são os que ainda faltam relatar.
#[verifier::opaque]
pub open spec fn segue(
    ts: Seq<Token>,
    p: int,
    laco: bool,
    funcao: bool,
    ek: (Seq<(Seq<char>, Span)>, bool),
    es: Seq<Diagnostico>,
    seguindo: bool,
) -> bool {
    seguindo ==> es.len() <= ek.0.len() && erros_conhecidos(ts, p, laco, funcao) == (ek.0.skip(es.len() as int), ek.1)
}

proof fn lema_acompanha_inicio(ts: Seq<Token>, p: int, laco: bool, funcao: bool)
    ensures
        prefixo_ok(erros_conhecidos(ts, p, laco, funcao), Seq::empty(), true),
        segue(ts, p, laco, funcao, erros_conhecidos(ts, p, laco, funcao), Seq::empty(), true),
{
    reveal(prefixo_ok);
    reveal(segue);
    let ek = erros_conhecidos(ts, p, laco, funcao);
    assert(ek.0.skip(0) =~= ek.0);
}

proof fn lema_acompanha_fim(
    ts: Seq<Token>,
    p: int,
    laco: bool,
    funcao: bool,
    ek: (Seq<(Seq<char>, Span)>, bool),
    es: Seq<Diagnostico>,
    seguindo: bool,
)
    requires
        0 <= p < ts.len(),
        ts[p].tipo is FimDeArquivo,
        segue(ts, p, laco, funcao, ek, es, seguindo),
    ensures
        seguindo ==> es.len() == ek.0.len(),
{
    reveal(segue);
    lema_erros_fim(ts, p, laco, funcao);
    if seguindo {
        assert(ek.0.skip(es.len() as int).len() == 0);
    }
}

proof fn lema_acompanha_ok(
    ts: Seq<Token>,
    i: int,
    j: int,
    laco: bool,
    funcao: bool,
    ek: (Seq<(Seq<char>, Span)>, bool),
    es: Seq<Diagnostico>,
    seguindo: bool,
) -> (s2: bool)
    requires
        0 <= i < ts.len(),
        !(ts[i].tipo is FimDeArquivo),
        prefixo_ok(ek, es, seguindo),
        segue(ts, i, laco, funcao, ek, es, seguindo),
        rejeicao(ts, i, laco, funcao) is None,
        passo_simples(ts, i, laco, funcao) matches Some((_, k)) ==> k == j,
    ensures
        prefixo_ok(ek, es, s2),
        segue(ts, j, laco, funcao, ek, es, s2),
{
    reveal(prefixo_ok);
    reveal(segue);
    if !seguindo {
        false
    } else {
        lema_erros_passo(ts, i, laco, funcao);
        if passo_simples(ts, i, laco, funcao) matches Some((_, k)) && i < k && k < ts.len() {
            true
        } else {
            assert(ek.0.skip(es.len() as int).len() == 0);
            false
        }
    }
}

proof fn lema_acompanha_erro(
    ts: Seq<Token>,
    i: int,
    p: int,
    laco: bool,
    funcao: bool,
    ek: (Seq<(Seq<char>, Span)>, bool),
    es: Seq<Diagnostico>,
    d: Diagnostico,
    seguindo: bool,
) -> (s2: bool)
    requires
        0 <= i < ts.len(),
        !(ts[i].tipo is FimDeArquivo),
        prefixo_ok(ek, es, seguindo),
        segue(ts, i, laco, funcao, ek, es, seguindo),
        rejeicao(ts, i, laco, funcao) matches Some((c, s, p2)) ==> c == d.codigo@ && s == d.span && p2 == p,
        passo_simples(ts, i, laco, funcao) is None,
    ensures
        prefixo_ok(ek, es.push(d), s2),
        segue(ts, retomada(ts, p), laco, funcao, ek, es.push(d), s2),
{
    reveal(prefixo_ok);
    reveal(segue);
    let es2 = es.push(d);
    if !seguindo {
        assert forall|k: int| 0 <= k < es2.len() && k < ek.0.len() implies (#[trigger] es2[k]).codigo@ == ek.0[k].0
            && es2[k].span == ek.0[k].1 by {
            assert(es2[k] == es[k]);
        }
        false
    } else {
        lema_erros_passo(ts, i, laco, funcao);
        let n = es.len() as int;
        if rejeicao(ts, i, laco, funcao) is Some {
            let e0 = ek.0.skip(n);
            assert(e0.len() > 0);
            assert(ek.0[n] == e0[0]);
            assert(ek.0.skip(n + 1) =~= e0.skip(1));
            assert forall|k: int| 0 <= k < es2.len() && k < ek.0.len() implies (#[trigger] es2[k]).codigo@ == ek.0[k].0
                && es2[k].span == ek.0[k].1 by {
                if k < n {
                    assert(es2[k] == es[k]);
                }
            }
            let q = retomada(ts, p);
            if i < q && q <= ts.len() {
                let (c, sp, p2) = rejeicao(ts, i, laco, funcao).unwrap();
                let r = erros_conhecidos(ts, q, laco, funcao);
                assert((seq![(c, sp)] + r.0).skip(1) =~= r.0);
                assert(e0 == seq![(c, sp)] + r.0);
                true
            } else {
                false
            }
        } else {
            assert(ek.0.skip(n).len() == 0);
            assert forall|k: int| 0 <= k < es2.len() && k < ek.0.len() implies (#[trigger] es2[k]).codigo@ == ek.0[k].0
                && es2[k].span == ek.0[k].1 by {
                assert(es2[k] == es[k]);
            }
            false
        }
    }
}

proof fn lema_acompanha_final(ek: (Seq<(Seq<char>, Span)>, bool), es: Seq<Diagnostico>, seguindo: bool)
    requires
        prefixo_ok(ek, es, seguindo),
        seguindo && es.len() < 20 ==> es.len() == ek.0.len(),
        es.len() <= 20,
    ensures
        forall|k: int|
            0 <= k < es.len() && k < ek.0.len() ==> (#[trigger] es[k]).codigo@ == ek.0[k].0 && es[k].span == ek.0[k].1,
        es.len() >= (if ek.0.len() <= 20 { ek.0.len() } else { 20 }),
        ek.1 && ek.0.len() <= 20 ==> es.len() == ek.0.len(),
{
    reveal(prefixo_ok);
}

/// Os erros certos do programa a partir de `i`, um por declaração que falha,
/// recomeçando depois de cada um; o segundo valor diz se a leitura foi
/// acompanhada até o fim (senão, pode haver mais erros depois deles).
#[verifier::opaque]
pub open spec fn erros_conhecidos(ts: Seq<Token>, i: int, laco: bool, funcao: bool) -> (Seq<(Seq<char>, Span)>, bool)
    decreases ts.len() - i,
{
    if !(0 <= i < ts.len()) {
        (Seq::empty(), false)
    } else if ts[i].tipo is FimDeArquivo {
        (Seq::empty(), true)
    } else {
        match rejeicao(ts, i, laco, funcao) {
            Some((c, s, p)) => {
                let q = retomada(ts, p);
                if i < q && q <= ts.len() {
                    let resto = erros_conhecidos(ts, q, laco, funcao);
                    (seq![(c, s)] + resto.0, resto.1)
                } else {
                    (seq![(c, s)], false)
                }
            },
            None => match passo_simples(ts, i, laco, funcao) {
                Some((_, k)) => if i < k && k < ts.len() {
                    erros_conhecidos(ts, k, laco, funcao)
                } else {
                    (Seq::empty(), false)
                },
                None => (Seq::empty(), false),
            },
        }
    }
}

/// O primeiro erro certo no bloco `{ ... }` que começa em `j`.
pub open spec fn erro_bloco(ts: Seq<Token>, j: int, laco: bool, funcao: bool) -> Option<(Seq<char>, Span, int)>
    decreases ts.len() - j, 2nat,
{
    if 0 <= j && j + 1 < ts.len() && ts[j].tipo is ChaveEsq {
        erro_seq(ts, j + 1, laco, funcao)
    } else {
        None
    }
}

/// Um passo dos erros conhecidos, caso a caso: a declaração em `i` falha com
/// erro certo, passa no fragmento simples ou é desconhecida.
proof fn lema_erros_passo(ts: Seq<Token>, i: int, laco: bool, funcao: bool)
    requires
        0 <= i < ts.len(),
        !(ts[i].tipo is FimDeArquivo),
    ensures
        rejeicao(ts, i, laco, funcao) matches Some((c, s, p)) ==> ({
            let q = retomada(ts, p);
            &&& i < q && q <= ts.len() ==> erros_conhecidos(ts, i, laco, funcao) == (
                seq![(c, s)] + erros_conhecidos(ts, q, laco, funcao).0,
                erros_conhecidos(ts, q, laco, funcao).1,
            )
            &&& !(i < q && q <= ts.len()) ==> erros_conhecidos(ts, i, laco, funcao) == (seq![(c, s)], false)
        }),
        rejeicao(ts, i, laco, funcao) is None ==> (passo_simples(ts, i, laco, funcao) matches Some((_, k)) ==> (i < k && k
            < ts.len() ==> erros_conhecidos(ts, i, laco, funcao) == erros_conhecidos(ts, k, laco, funcao))),
        rejeicao(ts, i, laco, funcao) is None && !(passo_simples(ts, i, laco, funcao) matches Some((_, k)) && i < k && k
            < ts.len()) ==> erros_conhecidos(ts, i, laco, funcao) == (Seq::<(Seq<char>, Span)>::empty(), false),
{
    reveal_with_fuel(erros_conhecidos, 1);
}

/// No fim do arquivo não há mais erros, e a leitura terminou.
proof fn lema_erros_fim(ts: Seq<Token>, i: int, laco: bool, funcao: bool)
    requires
        0 <= i < ts.len(),
        ts[i].tipo is FimDeArquivo,
    ensures
        erros_conhecidos(ts, i, laco, funcao) == (Seq::<(Seq<char>, Span)>::empty(), true),
{
    reveal_with_fuel(erros_conhecidos, 1);
}

/// A forma do comando simples que começa em `i`, e onde ele termina, num
/// contexto dentro (`laco`) ou fora de um laço e dentro (`funcao`) ou fora de
/// uma função. Ficam de fora (`None`) os comandos cujas expressões saem do
/// fragmento de `expr_simples` (textos interpolados) e os
/// comandos mal colocados ou malformados.
pub open spec fn cmd_simples(ts: Seq<Token>, i: int, laco: bool, funcao: bool) -> Option<(CmdV, int)>
    decreases ts.len() - i, 17nat,
{
    if !(0 <= i < ts.len()) {
        None
    } else if ts[i].tipo is Var || ts[i].tipo is Constante {
        decl_simples(ts, i)
    } else if ts[i].tipo is Se {
        se_simples(ts, i, laco, funcao)
    } else if ts[i].tipo is Enquanto {
        enquanto_simples(ts, i, funcao)
    } else if ts[i].tipo is Para {
        if i + 1 < ts.len() && ts[i + 1].tipo is Cada {
            para_cada_simples(ts, i, funcao)
        } else {
            para_num_simples(ts, i, funcao)
        }
    } else if ts[i].tipo is Retorne {
        retorne_simples(ts, i, funcao)
    } else if ts[i].tipo is Pare || ts[i].tipo is Continue {
        if laco && i + 1 < ts.len() {
            Some(
                (
                    if ts[i].tipo is Pare {
                        CmdV::Pare(ts[i].span)
                    } else {
                        CmdV::Continue(ts[i].span)
                    },
                    i + 1,
                ),
            )
        } else {
            None
        }
    } else if ts[i].tipo is Lance {
        lance_simples(ts, i)
    } else if ts[i].tipo is Tente {
        tente_simples(ts, i, laco, funcao)
    } else if ts[i].tipo is Classe {
        classe_simples(ts, i)
    } else if ts[i].tipo is Escolha {
        escolha_simples(ts, i, laco, funcao)
    } else if ts[i].tipo is Importe {
        importe_simples(ts, i)
    } else if ts[i].tipo is Funcao && i + 1 < ts.len() && ts[i + 1].tipo is Identificador {
        funcao_simples(ts, i)
    } else if comeca_comando(ts[i].tipo) || ts[i].tipo is Importe || ts[i].tipo is Classe
        || (ts[i].tipo is Funcao && i + 1 < ts.len() && ts[i + 1].tipo is Identificador) {
        None
    } else {
        expressao_cmd(ts, i)
    }
}

/// Os comandos simples a partir de `j` até o `}` que fecha o bloco, e a
/// posição logo depois dele.
pub open spec fn cmds_ate_chave(ts: Seq<Token>, j: int, laco: bool, funcao: bool) -> Option<
    (Seq<CmdV>, int),
>
    decreases ts.len() - j, 18nat,
{
    if !(0 <= j < ts.len()) || ts[j].tipo is FimDeArquivo {
        None
    } else if ts[j].tipo is ChaveDir {
        Some((Seq::empty(), j + 1))
    } else {
        match cmd_simples(ts, j, laco, funcao) {
            Some((c, k)) => if j < k < ts.len() {
                match cmds_ate_chave(ts, k, laco, funcao) {
                    Some((resto, l)) => Some((seq![c] + resto, l)),
                    None => None,
                }
            } else {
                None
            },
            None => None,
        }
    }
}

/// O bloco `{ ... }` de comandos simples que começa em `i`: as formas dos
/// comandos e a posição logo depois do `}`.
pub open spec fn bloco_simples(ts: Seq<Token>, i: int, laco: bool, funcao: bool) -> Option<(Seq<CmdV>, int)>
    decreases ts.len() - i, 19nat,
{
    if 0 <= i < ts.len() && ts[i].tipo is ChaveEsq {
        cmds_ate_chave(ts, i + 1, laco, funcao)
    } else {
        None
    }
}

/// A definição de `expr_ate`.
pub broadcast proof fn def_expr_ate(ts: Seq<Token>, i: int)
    ensures
        #[trigger] expr_ate(ts, i) == ({
        match expr_simples(ts, i, 14) {
            Some((e, j)) => if i < j < ts.len() {
                Some((e, j))
            } else {
                None
            },
            None => None,
        }
        }),
{
    reveal(expr_ate);
}

/// A definição de `expressao_cmd`.
pub broadcast proof fn def_expressao_cmd(ts: Seq<Token>, i: int)
    ensures
        #[trigger] expressao_cmd(ts, i) == ({
        match expr_simples(ts, i, 14) {
            Some((e, j)) => if i < j < ts.len() && ts[j].tipo is Virgula && e matches ExprV::Folha(Expr::Variavel(..)) {
                match multi_simples(ts, j, e->Folha_0->Variavel_0) {
                    Some((nomes, valores, l)) => Some((CmdV::AtribMulti { nomes, valores, span: e->Folha_0->Variavel_1 }, l)),
                    None => None,
                }
            } else {
                Some((CmdV::Expressao(e), j))
            },
            None => None,
        }
        }),
{
    reveal(multi_simples);
    reveal(expressao_cmd);
}

/// A definição de `decl_simples`.
pub broadcast proof fn def_decl_simples(ts: Seq<Token>, i: int)
    ensures
        #[trigger] decl_simples(ts, i) == ({
        if 0 <= i && i + 2 < ts.len() && (ts[i].tipo is Var || ts[i].tipo is Constante) && ts[i + 1].tipo is Identificador
            && ts[i + 2].tipo is Virgula {
            match multi_simples(ts, i + 2, ts[i + 1].lexema) {
                Some((nomes, valores, l)) => Some(
                    (CmdV::DeclVarMulti { nomes, valores, constante: ts[i].tipo is Constante, span: ts[i].span }, l),
                ),
                None => None,
            }
        } else if 0 <= i && i + 2 < ts.len() && (ts[i].tipo is Var || ts[i].tipo is Constante) && ts[i + 1].tipo is Identificador
            && ts[i + 2].tipo is Igual {
            match expr_simples(ts, i + 3, 14) {
                Some((v, j)) => Some(
                    (
                        CmdV::DeclVar {
                            nome: ts[i + 1].lexema,
                            valor: v,
                            constante: ts[i].tipo is Constante,
                            span: unir_span_spec(ts[i].span, span_vista(v)),
                        },
                        j,
                    ),
                ),
                None => None,
            }
        } else {
            None
        }
        }),
{
    reveal(multi_simples);
    reveal(decl_simples);
}

/// A definição de `retorne_simples`.
pub broadcast proof fn def_retorne_simples(ts: Seq<Token>, i: int, funcao: bool)
    ensures
        #[trigger] retorne_simples(ts, i, funcao) == ({
        if !funcao || !(0 <= i && i + 1 < ts.len()) {
            None
        } else if ts[i + 1].tipo is ChaveDir || ts[i + 1].tipo is FimDeArquivo {
            Some((CmdV::Retorne(None, ts[i].span), i + 1))
        } else {
            match expr_ate(ts, i + 1) {
                Some((e, j)) => Some((CmdV::Retorne(Some(e), ts[i].span), j)),
                None => None,
            }
        }
        }),
{
    reveal(expr_ate);
    reveal(retorne_simples);
}

/// A definição de `lance_simples`.
pub broadcast proof fn def_lance_simples(ts: Seq<Token>, i: int)
    ensures
        #[trigger] lance_simples(ts, i) == ({
        if !(0 <= i < ts.len()) {
            None
        } else {
            match expr_ate(ts, i + 1) {
                Some((e, j)) => Some((CmdV::Lance(e, ts[i].span), j)),
                None => None,
            }
        }
        }),
{
    reveal(expr_ate);
    reveal(lance_simples);
}

/// A definição de `limites_de`.
pub broadcast proof fn def_limites_de(ts: Seq<Token>, p: int)
    ensures
        #[trigger] limites_de(ts, p) == ({
        if !(0 <= p < ts.len() && ts[p].tipo is De) {
            None
        } else {
            match expr_ate(ts, p + 1) {
                Some((de, j)) => if !(p < j < ts.len() && ts[j].tipo is Ate) {
                    None
                } else {
                    match expr_ate(ts, j + 1) {
                        Some((ate, k)) => if j < k < ts.len() && ts[k].tipo is Passo {
                            match expr_ate(ts, k + 1) {
                                Some((q, l)) => Some((de, ate, Some(q), l)),
                                None => None,
                            }
                        } else {
                            Some((de, ate, None, k))
                        },
                        None => None,
                    }
                },
                None => None,
            }
        }
        }),
{
    reveal(expr_ate);
    reveal(limites_de);
}

/// A definição de `limites_para`.
pub broadcast proof fn def_limites_para(ts: Seq<Token>, i: int)
    ensures
        #[trigger] limites_para(ts, i) == ({
        if 0 <= i && i + 3 < ts.len() && ts[i + 1].tipo is Identificador {
            limites_de(ts, i + 2)
        } else {
            None
        }
        }),
{
    reveal(limites_de);
    reveal(limites_para);
}

/// A definição de `multi_simples`.
pub broadcast proof fn def_multi_simples(ts: Seq<Token>, j: int, primeiro: String)
    ensures
        #[trigger] multi_simples(ts, j, primeiro) == ({
        match nomes_multi(ts, j, seq![primeiro]) {
            Some((nomes, k)) => if j <= k < ts.len() && ts[k].tipo is Igual {
                match valores_de(ts, k + 1, Seq::empty()) {
                    Some((valores, l)) => Some((nomes, valores, l)),
                    None => None,
                }
            } else {
                None
            },
            None => None,
        }
        }),
{
    reveal(multi_simples);
}

/// A definição de `params_simples`.
pub broadcast proof fn def_params_simples(ts: Seq<Token>, i: int)
    ensures
        #[trigger] params_simples(ts, i) == ({
        if 0 <= i && i + 1 < ts.len() && ts[i].tipo is ParenEsq {
            if ts[i + 1].tipo is ParenDir {
                Some((Seq::empty(), i + 2))
            } else {
                params_de(ts, i, Seq::empty(), false)
            }
        } else {
            None
        }
        }),
{
    reveal(params_simples);
}

/// A definição de `funcao_anon`.
pub broadcast proof fn def_funcao_anon(ts: Seq<Token>, i: int)
    ensures
        #[trigger] funcao_anon(ts, i) == ({
        if 0 <= i && i + 1 < ts.len() && ts[i].tipo is Funcao {
            match params_simples(ts, i + 1) {
                Some((ps, j)) => if i < j && j < ts.len() {
                    match bloco_simples(ts, j, false, true) {
                        Some((corpo, k)) => Some((ExprV::FuncaoAnon(ps, corpo, ts[i].span), k)),
                        None => None,
                    }
                } else {
                    None
                },
                None => None,
            }
        } else {
            None
        }
        }),
{
    reveal(params_simples);
    reveal(funcao_anon);
}

/// Um passo da definição de `escolha_simples`, com as partes escondidas por nome.
proof fn passo_escolha_simples(ts: Seq<Token>, i: int, laco: bool, funcao: bool)
    ensures
        escolha_simples(ts, i, laco, funcao) == ({
        if !(0 <= i < ts.len()) {
            None
        } else {
            match expr_ate(ts, i + 1) {
                Some((e, j)) => if i < j && j + 1 < ts.len() && ts[j].tipo is ChaveEsq {
                    match ramos_de(ts, j + 1, sem_ramos(), laco, funcao) {
                        Some((rs, k)) => Some((CmdV::Escolha { valor: e, ramos: rs }, k)),
                        None => None,
                    }
                } else {
                    None
                },
                None => None,
            }
        }
        }),
{
    reveal(expr_ate);
}

/// Um passo da definição de `funcao_simples`, com as partes escondidas por nome.
proof fn passo_funcao_simples(ts: Seq<Token>, i: int)
    ensures
        funcao_simples(ts, i) == ({
        if 0 <= i && i + 2 < ts.len() && ts[i + 1].tipo is Identificador {
            match params_simples(ts, i + 2) {
                Some((ps, j)) => if i < j && j < ts.len() {
                    match bloco_simples(ts, j, false, true) {
                        Some((corpo, k)) => Some(
                            (CmdV::DeclFuncao { nome: ts[i + 1].lexema, params: ps, corpo, span: ts[i].span }, k),
                        ),
                        None => None,
                    }
                } else {
                    None
                },
                None => None,
            }
        } else {
            None
        }
        }),
{
    reveal(params_simples);
}

/// Um passo da definição de `enquanto_simples`, com as partes escondidas por nome.
proof fn passo_enquanto_simples(ts: Seq<Token>, i: int, funcao: bool)
    ensures
        enquanto_simples(ts, i, funcao) == ({
        if !(0 <= i < ts.len()) {
            None
        } else {
            match expr_ate(ts, i + 1) {
                Some((e, j)) => if i < j < ts.len() {
                    match bloco_simples(ts, j, true, funcao) {
                        Some((corpo, k)) => Some((CmdV::Enquanto(e, corpo), k)),
                        None => None,
                    }
                } else {
                    None
                },
                None => None,
            }
        }
        }),
{
    reveal(expr_ate);
}

/// Um passo da definição de `para_cada_simples`, com as partes escondidas por nome.
proof fn passo_para_cada_simples(ts: Seq<Token>, i: int, funcao: bool)
    ensures
        para_cada_simples(ts, i, funcao) == ({
        if 0 <= i && i + 4 < ts.len() && ts[i + 2].tipo is Identificador && ts[i + 3].tipo is Em {
            match expr_ate(ts, i + 4) {
                Some((it, j)) => if i < j < ts.len() {
                    match bloco_simples(ts, j, true, funcao) {
                        Some((corpo, k)) => Some((CmdV::ParaCada { variavel: ts[i + 2].lexema, iteravel: it, corpo }, k)),
                        None => None,
                    }
                } else {
                    None
                },
                None => None,
            }
        } else {
            None
        }
        }),
{
    reveal(expr_ate);
}

/// Um passo da definição de `para_num_simples`, com as partes escondidas por nome.
proof fn passo_para_num_simples(ts: Seq<Token>, i: int, funcao: bool)
    ensures
        para_num_simples(ts, i, funcao) == ({
        match limites_para(ts, i) {
            Some((de, ate, passo, l)) => if i < l < ts.len() {
                match bloco_simples(ts, l, true, funcao) {
                    Some((corpo, m)) => Some(
                        (CmdV::ParaNumerico { variavel: ts[i + 1].lexema, de, ate, passo, corpo }, m),
                    ),
                    None => None,
                }
            } else {
                None
            },
            None => None,
        }
        }),
{
    reveal(limites_para);
}

/// Um passo da definição de `se_simples`, com as partes escondidas por nome.
proof fn passo_se_simples(ts: Seq<Token>, i: int, laco: bool, funcao: bool)
    ensures
        se_simples(ts, i, laco, funcao) == ({
        if !(0 <= i < ts.len()) {
            None
        } else {
            match expr_ate(ts, i + 1) {
                Some((e, j)) => if !(i < j < ts.len()) {
                    None
                } else {
                    match bloco_simples(ts, j, laco, funcao) {
                    Some((ent, k)) => if !(j < k < ts.len()) {
                        None
                    } else if ts[k].tipo is SenaoSe {
                        match se_simples(ts, k, laco, funcao) {
                            Some((c, l)) => Some((CmdV::Se(e, ent, Some(seq![c])), l)),
                            None => None,
                        }
                    } else if ts[k].tipo is Senao {
                        if k + 1 < ts.len() && ts[k + 1].tipo is Se {
                            match se_simples(ts, k + 1, laco, funcao) {
                                Some((c, l)) => Some((CmdV::Se(e, ent, Some(seq![c])), l)),
                                None => None,
                            }
                        } else {
                            match bloco_simples(ts, k + 1, laco, funcao) {
                                Some((sb, l)) => Some((CmdV::Se(e, ent, Some(sb)), l)),
                                None => None,
                            }
                        }
                    } else {
                        Some((CmdV::Se(e, ent, None), k))
                    },
                    None => None,
                    }
                },
                None => None,
            }
        }
        }),
{
    reveal(expr_ate);
}

/// Um passo da definição de `valores_de`, com as partes escondidas por nome.
proof fn passo_valores_de(ts: Seq<Token>, j: int, acc: Seq<ExprV>)
    ensures
        valores_de(ts, j, acc) == ({
        match expr_ate(ts, j) {
            Some((e, k)) => if j < k < ts.len() && ts[k].tipo is Virgula {
                valores_de(ts, k + 1, acc.push(e))
            } else {
                Some((acc.push(e), k))
            },
            None => None,
        }
        }),
{
    reveal(expr_ate);
}

/// Um passo da definição de `cmd_simples`, com as partes escondidas por nome.
proof fn passo_cmd_simples(ts: Seq<Token>, i: int, laco: bool, funcao: bool)
    ensures
        cmd_simples(ts, i, laco, funcao) == ({
        if !(0 <= i < ts.len()) {
            None
        } else if ts[i].tipo is Var || ts[i].tipo is Constante {
            decl_simples(ts, i)
        } else if ts[i].tipo is Se {
            se_simples(ts, i, laco, funcao)
        } else if ts[i].tipo is Enquanto {
            enquanto_simples(ts, i, funcao)
        } else if ts[i].tipo is Para {
            if i + 1 < ts.len() && ts[i + 1].tipo is Cada {
                para_cada_simples(ts, i, funcao)
            } else {
                para_num_simples(ts, i, funcao)
            }
        } else if ts[i].tipo is Retorne {
            retorne_simples(ts, i, funcao)
        } else if ts[i].tipo is Pare || ts[i].tipo is Continue {
            if laco && i + 1 < ts.len() {
                Some(
                    (
                        if ts[i].tipo is Pare {
                            CmdV::Pare(ts[i].span)
                        } else {
                            CmdV::Continue(ts[i].span)
                        },
                        i + 1,
                    ),
                )
            } else {
                None
            }
        } else if ts[i].tipo is Lance {
            lance_simples(ts, i)
        } else if ts[i].tipo is Tente {
            tente_simples(ts, i, laco, funcao)
        } else if ts[i].tipo is Classe {
            classe_simples(ts, i)
        } else if ts[i].tipo is Escolha {
            escolha_simples(ts, i, laco, funcao)
        } else if ts[i].tipo is Importe {
            importe_simples(ts, i)
        } else if ts[i].tipo is Funcao && i + 1 < ts.len() && ts[i + 1].tipo is Identificador {
            funcao_simples(ts, i)
        } else if comeca_comando(ts[i].tipo) || ts[i].tipo is Importe || ts[i].tipo is Classe
            || (ts[i].tipo is Funcao && i + 1 < ts.len() && ts[i + 1].tipo is Identificador) {
            None
        } else {
            expressao_cmd(ts, i)
        }
        }),
{
    reveal(expressao_cmd);
    reveal(decl_simples);
    reveal(retorne_simples);
    reveal(lance_simples);
}

/// Um primário que começa em `funcao` é a função anônima.
proof fn passo_funcao_anon(ts: Seq<Token>, i: int)
    requires
        0 <= i < ts.len(),
        ts[i].tipo is Funcao,
    ensures
        expr_simples(ts, i, 0) == funcao_anon(ts, i),
{
    reveal(funcao_anon);
}

/// As definições das partes da gramática que ficam escondidas.
pub broadcast group grupo_gramatica {
    def_expr_ate,
    def_expressao_cmd,
    def_decl_simples,
    def_retorne_simples,
    def_lance_simples,
    def_limites_de,
    def_limites_para,
    def_multi_simples,
    def_params_simples,
    def_funcao_anon,
}

/// As formas do programa feito só de comandos simples, de `i` até o fim dos
/// tokens.
pub open spec fn programa_simples(ts: Seq<Token>, i: int, laco: bool, funcao: bool) -> Option<Seq<CmdV>>
    decreases ts.len() - i,
{
    if !(0 <= i < ts.len()) {
        None
    } else if ts[i].tipo is FimDeArquivo {
        Some(Seq::empty())
    } else {
        match cmd_simples(ts, i, laco, funcao) {
            Some((c, j)) => if i < j < ts.len() {
                match programa_simples(ts, j, laco, funcao) {
                    Some(resto) => Some(seq![c] + resto),
                    None => None,
                }
            } else {
                None
            },
            None => None,
        }
    }
}

/// Um passo da leitura de um programa simples: o comando aceito é o próximo
/// da forma do programa.
proof fn lema_programa_passo(
    vs: Seq<CmdV>,
    antes: Seq<Cmd>,
    c: Cmd,
    depois: Seq<Cmd>,
    ts: Seq<Token>,
    p0: int,
    k: int,
    laco: bool,
    funcao: bool,
)
    requires
        0 <= p0 < ts.len(),
        !(ts[p0].tipo is FimDeArquivo),
        programa_simples(ts, p0, laco, funcao) matches Some(resto) && vs == vs.take(antes.len() as int) + resto,
        antes.len() <= vs.len(),
        correspondem(antes, vs.take(antes.len() as int)),
        cmd_simples(ts, p0, laco, funcao) matches Some((v, j)) ==> corresponde(c, v) && k == j,
        depois == antes.push(c),
    ensures
        programa_simples(ts, k, laco, funcao) matches Some(resto) && vs == vs.take(depois.len() as int) + resto,
        depois.len() <= vs.len(),
        correspondem(depois, vs.take(depois.len() as int)),
{
    let resto_antes = programa_simples(ts, p0, laco, funcao)->0;
    let resto = programa_simples(ts, k, laco, funcao)->0;
    let n = antes.len() as int;
    assert(resto_antes =~= seq![resto_antes[0]] + resto);
    assert(vs[n] == resto_antes[0]);
    assert(vs.take(n + 1) =~= vs.take(n).push(vs[n]));
    assert(vs =~= vs.take(n + 1) + resto);
    assert forall|m: int| 0 <= m < depois.len() implies corresponde(#[trigger] depois[m], vs.take(n + 1)[m]) by {
        if m < n {
            assert(depois[m] == antes[m]);
        }
    }
}

/// O analisador reconhece a expressão simples de nível `n` que começa na
/// posição em que estava: devolve uma expressão com exatamente essa forma e
/// para logo depois dela.
/// Nenhuma expressão começa com o token: não é um literal, um nome, uma
/// abertura, `novo`, `funcao` nem um operador unário.
pub open spec fn sem_expressao(t: TipoToken) -> bool {
    !inicia_expressao(t) && op_unario(t) is None
}

/// Diante de um token que não começa expressão, a leitura falha com K008 no
/// próprio token, sem consumi-lo.
pub open spec fn sem_expressao_em(antes: Parser, depois: Parser, r: Result<Expr, Diagnostico>) -> bool {
    sem_expressao(antes.tokens_spec()[antes.pos_spec()].tipo) ==> (r matches Err(d) && d.codigo@ == formato_codigo(8)
        && d.span == antes.tokens_spec()[antes.pos_spec()].span && depois.pos_spec() == antes.pos_spec())
}

pub open spec fn reconhece(antes: Parser, depois: Parser, r: Result<Expr, Diagnostico>, n: nat) -> bool {
    expr_simples(antes.tokens_spec(), antes.pos_spec(), n) matches Some((v, j)) ==> r matches Ok(e)
        && vista_expr(e) == v && depois.pos_spec() == j
}

/// Monta o nó de atribuição conforme o alvo (variável, índice ou campo).
fn montar_atribuicao(alvo: Expr, valor: Expr, span_op: Span) -> (r: Result<Expr, Diagnostico>)
    requires
        expr_ok(alvo),
        expr_ok(valor),
    ensures
        r matches Err(d) ==> eh_codigo_conhecido(d.codigo@),
        expr_res_ok(r),
        r == (match alvo {
            Expr::Variavel(nome, span) => Ok::<Expr, Diagnostico>(
                Expr::Atribuicao {
                    nome,
                    valor: Box::new(valor),
                    span: unir_span_spec(span, span_de(valor)),
                },
            ),
            Expr::Indice { alvo: a, indice, span } => Ok::<Expr, Diagnostico>(
                Expr::AtribIndice {
                    alvo: a,
                    indice,
                    valor: Box::new(valor),
                    span: unir_span_spec(span, span_de(valor)),
                },
            ),
            Expr::Acesso { alvo: a, membro, span } => Ok::<Expr, Diagnostico>(
                Expr::AtribCampo {
                    alvo: a,
                    membro,
                    valor: Box::new(valor),
                    span: unir_span_spec(span, span_de(valor)),
                },
            ),
            _ => r,
        }),
        r is Err <==> !(alvo is Variavel || alvo is Indice || alvo is Acesso),
        r matches Err(d) ==> d.codigo@ == formato_codigo(7) && d.span == span_op,
{
    match alvo {
        Expr::Variavel(nome, span) => {
            let s = unir_span(&span, &valor.span());
            Ok(Expr::Atribuicao { nome, valor: Box::new(valor), span: s })
        },
        Expr::Indice { alvo, indice, span } => {
            let s = unir_span(&span, &valor.span());
            Ok(Expr::AtribIndice { alvo, indice, valor: Box::new(valor), span: s })
        },
        Expr::Acesso { alvo, membro, span } => {
            let s = unir_span(&span, &valor.span());
            Ok(Expr::AtribCampo { alvo, membro, valor: Box::new(valor), span: s })
        },
        _ => Err(
            erro(
                K007,
                texto("só é possível atribuir a uma variável, índice ou campo"),
                span_op,
                "o lado esquerdo precisa ser um nome, um acesso com [] ou um campo",
            ),
        ),
    }
}

/// Erro de uma expressão inválida dentro de uma interpolação de texto.
/// A mensagem de um erro dentro de um texto interpolado: o prefixo fixo
/// seguido da mensagem do erro interno.
pub open spec fn mensagem_interp(m: Seq<char>) -> bool {
    let p = "erro na interpolação de texto: "@;
    m.len() >= p.len() && m.subrange(0, p.len() as int) == p
}

fn erro_interp(interno: &Diagnostico, span: &Span) -> (d: Diagnostico)
    ensures
        d.codigo@ == formato_codigo(18),
        eh_codigo_conhecido(d.codigo@),
        d.span == *span,
        d.mensagem@ == "erro na interpolação de texto: "@ + interno.mensagem@,
        mensagem_interp(d.mensagem@),
        d.rotulo matches Some(r) && r@ == "dentro deste texto interpolado"@,
{
    let mut msg = texto("erro na interpolação de texto: ");
    msg.append(interno.mensagem.as_str());
    proof {
        let p = "erro na interpolação de texto: "@;
        assert((p + interno.mensagem@).subrange(0, p.len() as int) =~= p);
    }
    erro(K018, msg, *span, "dentro deste texto interpolado")
}

} // verus!
